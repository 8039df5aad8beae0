//! Desugaring of the HIR towards Python semantics: the non-method members of
//! a class body become attribute assignments after the class definition.
//!
//! ```erg
//! C = Class ...
//! C.
//!     _Self = C
//!     a = C.x
//!     x = 1
//!     m(self) = ...
//! ```
//! becomes
//! ```python
//! class C:
//!     def m(self): ...
//! C._Self = C
//! C.a = C.x
//! C.x = 1
//! ```
use vstd::prelude::*;

use crate::hir::{Accessor, Attribute, Block, ClassDef, Def, Dummy, Expr, Methods, Module, ReDef, HIR};

verus! {

/// A member of a class body that stays in the class: a subroutine definition.
pub open spec fn is_method_def(e: Expr) -> bool {
    e matches Expr::Def(d) && d.sig is Subr
}

/// The method definitions of one class body, in order.
pub open spec fn methods_of(es: Seq<Expr>) -> Seq<Expr>
    decreases es.len(),
{
    if es.len() == 0 {
        seq![]
    } else {
        let rest = methods_of(es.drop_last());
        if is_method_def(es.last()) {
            rest.push(es.last())
        } else {
            rest
        }
    }
}

/// The assignment `C.x = body` a static member `x = body` of class `C` becomes.
pub open spec fn as_static_member(class: Expr, e: Expr) -> Expr {
    match e {
        Expr::Def(d) => Expr::ReDef(
            ReDef {
                attr: Accessor::Attr(Attribute { obj: Box::new(class), ident: d.sig.spec_ident() }),
                block: d.body.block,
            },
        ),
        other => other,
    }
}

/// The statics of one class body `es`, turned into assignments, in order.
pub open spec fn statics_of(class: Expr, es: Seq<Expr>) -> Seq<Expr>
    decreases es.len(),
{
    if es.len() == 0 {
        seq![]
    } else {
        let rest = statics_of(class, es.drop_last());
        if is_method_def(es.last()) {
            rest
        } else {
            rest.push(as_static_member(class, es.last()))
        }
    }
}

/// The statics of all the bodies of a class, in order.
pub open spec fn class_statics(class: Expr, ms: Seq<Methods>) -> Seq<Expr>
    decreases ms.len(),
{
    if ms.len() == 0 {
        seq![]
    } else {
        class_statics(class, ms.drop_last()) + statics_of(class, ms.last().defs.0@)
    }
}

/// The expression naming the class that `cd` defines.
pub open spec fn class_expr(cd: ClassDef) -> Expr {
    Expr::Accessor(Accessor::Ident(cd.sig.spec_ident()))
}

/// `after` is `before` with only the method definitions left in each body.
pub open spec fn methods_kept(before: ClassDef, after: ClassDef) -> bool {
    &&& after.sig == before.sig
    &&& after.require_or_sup == before.require_or_sup
    &&& after.methods_list@.len() == before.methods_list@.len()
    &&& forall|i: int|
        0 <= i < before.methods_list@.len() ==> {
            let (m, am) = (#[trigger] before.methods_list@[i], after.methods_list@[i]);
            &&& am.class == m.class
            &&& am.impl_trait == m.impl_trait
            &&& am.defs.0@ == methods_of(m.defs.0@)
        }
}

/// `after` is the desugaring of `before`: a class definition with static
/// members becomes a compound of the class (keeping its methods) followed by
/// the assignments of its statics; code blocks, compounds, definition
/// bodies and positional arguments of calls are desugared element-wise; any
/// other expression is left as it is.
pub open spec fn desugared(before: Expr, after: Expr) -> bool
    decreases before,
{
    match before {
        Expr::ClassDef(cd) => {
            let statics = class_statics(class_expr(cd), cd.methods_list@);
            if statics.len() == 0 {
                after matches Expr::ClassDef(acd) && methods_kept(cd, acd)
            } else {
                &&& after matches Expr::Compound(b)
                &&& after->Compound_0.0@.len() == statics.len() + 1
                &&& after->Compound_0.0@[0] matches Expr::ClassDef(acd) && methods_kept(cd, acd)
                &&& after->Compound_0.0@.skip(1) == statics
            }
        },
        Expr::Code(b) => {
            &&& after matches Expr::Code(ab)
            &&& after->Code_0.0@.len() == b.0@.len()
            &&& forall|i: int|
                0 <= i < b.0@.len() ==> desugared(#[trigger] b.0@[i], after->Code_0.0@[i])
        },
        Expr::Compound(b) => {
            &&& after matches Expr::Compound(ab)
            &&& after->Compound_0.0@.len() == b.0@.len()
            &&& forall|i: int|
                0 <= i < b.0@.len() ==> desugared(#[trigger] b.0@[i], after->Compound_0.0@[i])
        },
        Expr::Def(d) => {
            &&& after matches Expr::Def(ad)
            &&& after->Def_0.sig == d.sig
            &&& after->Def_0.body.block.0@.len() == d.body.block.0@.len()
            &&& forall|i: int|
                0 <= i < d.body.block.0@.len() ==> desugared(
                    #[trigger] d.body.block.0@[i],
                    after->Def_0.body.block.0@[i],
                )
        },
        Expr::Call(c) => {
            &&& after matches Expr::Call(ac)
            &&& after->Call_0.obj == c.obj
            &&& after->Call_0.attr_name == c.attr_name
            &&& after->Call_0.t == c.t
            &&& after->Call_0.constructs_effectful_instance == c.constructs_effectful_instance
            &&& after->Call_0.args.var_args == c.args.var_args
            &&& after->Call_0.args.kw_args == c.args.kw_args
            &&& after->Call_0.args.kw_var == c.args.kw_var
            &&& after->Call_0.args.paren == c.args.paren
            &&& after->Call_0.args.pos_args@.len() == c.args.pos_args@.len()
            &&& forall|i: int|
                0 <= i < c.args.pos_args@.len() ==> desugared(
                    #[trigger] c.args.pos_args@[i].expr,
                    after->Call_0.args.pos_args@[i].expr,
                )
        },
        _ => after == before,
    }
}

/// The elements of `v` in reverse order.
fn reversed<T>(v: Vec<T>) -> (r: Vec<T>)
    ensures
        r@.len() == v@.len(),
        forall|i: int| 0 <= i < r@.len() ==> #[trigger] r@[i] == v@[v@.len() - 1 - i],
{
    let mut v = v;
    let ghost orig = v@;
    let mut r: Vec<T> = Vec::new();
    while v.len() > 0
        invariant
            v@.len() + r@.len() == orig.len(),
            v@ == orig.take(v@.len() as int),
            forall|i: int| 0 <= i < r@.len() ==> #[trigger] r@[i] == orig[orig.len() - 1 - i],
        decreases v.len(),
    {
        let x = v.pop().unwrap();
        r.push(x);
    }
    r
}

/// Splits one class body into the methods it keeps (returned) and the
/// assignments of its statics (appended to `statics`).
fn split_body(class: &crate::hir::Identifier, defs: Vec<Expr>, statics: &mut Vec<Expr>) -> (methods:
    Vec<Expr>)
    ensures
        methods@ == methods_of(defs@),
        final(statics)@ == old(statics)@ + statics_of(
            Expr::Accessor(Accessor::Ident(*class)),
            defs@,
        ),
{
    let ghost orig = defs@;
    let ghost start = statics@;
    let ghost cls = Expr::Accessor(Accessor::Ident(*class));
    let mut rev = reversed(defs);
    let mut methods: Vec<Expr> = Vec::new();
    let ghost mut k: int = 0;
    assert(orig.take(0) == Seq::<Expr>::empty());
    while rev.len() > 0
        invariant
            rev@.len() + k == orig.len(),
            0 <= k <= orig.len(),
            forall|i: int| 0 <= i < rev@.len() ==> #[trigger] rev@[i] == orig[orig.len() - 1 - i],
            methods@ == methods_of(orig.take(k)),
            statics@ == start + statics_of(cls, orig.take(k)),
            cls == Expr::Accessor(Accessor::Ident(*class)),
        decreases rev.len(),
    {
        let e = rev.pop().unwrap();
        assert(e == orig[k]);
        assert(orig.take(k + 1).drop_last() == orig.take(k));
        assert(orig.take(k + 1).last() == orig[k]);
        let keep = match &e {
            Expr::Def(d) => d.sig.is_subr(),
            _ => false,
        };
        assert(is_method_def(orig[k]) == keep);
        if keep {
            methods.push(e);
        } else {
            let member = match e {
                Expr::Def(d) => {
                    let Def { sig, body } = d;
                    let attr = Accessor::attr(Expr::Accessor(Accessor::Ident(class.clone())), sig.into_ident());
                    Expr::ReDef(ReDef { attr, block: body.block })
                },
                other => other,
            };
            statics.push(member);
            assert(statics@ == start + statics_of(cls, orig.take(k + 1)));
        }
        proof {
            k = k + 1;
        }
    }
    assert(orig.take(k) == orig);
    methods
}

/// Desugars a class definition.
fn desugar_class(cd: ClassDef) -> (r: Expr)
    ensures
        desugared(Expr::ClassDef(cd), r),
{
    let ghost before = cd;
    let ClassDef { sig, require_or_sup, methods_list } = cd;
    let class = sig.ident().clone();
    let ghost cls = Expr::Accessor(Accessor::Ident(class));
    let ghost orig = methods_list@;
    let mut rev = reversed(methods_list);
    let mut statics: Vec<Expr> = Vec::new();
    let mut kept: Vec<Methods> = Vec::new();
    let ghost mut k: int = 0;
    while rev.len() > 0
        invariant
            rev@.len() + k == orig.len(),
            0 <= k <= orig.len(),
            kept@.len() == k,
            forall|i: int| 0 <= i < rev@.len() ==> #[trigger] rev@[i] == orig[orig.len() - 1 - i],
            forall|i: int|
                0 <= i < k ==> {
                    let (m, am) = (#[trigger] orig[i], kept@[i]);
                    &&& am.class == m.class
                    &&& am.impl_trait == m.impl_trait
                    &&& am.defs.0@ == methods_of(m.defs.0@)
                },
            statics@ == class_statics(cls, orig.take(k)),
            cls == Expr::Accessor(Accessor::Ident(class)),
        decreases rev.len(),
    {
        let m = rev.pop().unwrap();
        assert(m == orig[k]);
        assert(orig.take(k + 1).drop_last() == orig.take(k));
        let Methods { class: mclass, impl_trait, defs } = m;
        let methods = split_body(&class, defs.0, &mut statics);
        kept.push(Methods { class: mclass, impl_trait, defs: Block(methods) });
        proof {
            k = k + 1;
        }
    }
    assert(orig.take(k) == orig);
    let new_cd = ClassDef { sig, require_or_sup, methods_list: kept };
    assert(methods_kept(before, new_cd));
    if statics.len() == 0 {
        Expr::ClassDef(new_cd)
    } else {
        let mut v: Vec<Expr> = Vec::new();
        v.push(Expr::ClassDef(new_cd));
        let ghost st = statics@;
        v.append(&mut statics);
        assert(v@.skip(1) == st);
        Expr::Compound(Block(v))
    }
}

/// Desugars each expression of `es`, in order.
#[verifier::loop_isolation(false)]
fn desugar_all(es: Vec<Expr>) -> (r: Vec<Expr>)
    ensures
        r@.len() == es@.len(),
        forall|i: int| 0 <= i < es@.len() ==> desugared(#[trigger] es@[i], r@[i]),
    decreases es,
{
    let ghost orig = es@;
    let ghost es0 = es;
    let mut rev = reversed(es);
    let mut out: Vec<Expr> = Vec::new();
    while rev.len() > 0
        invariant
            rev@.len() + out@.len() == orig.len(),
            forall|i: int| 0 <= i < rev@.len() ==> #[trigger] rev@[i] == orig[orig.len() - 1 - i],
            forall|i: int| 0 <= i < out@.len() ==> desugared(#[trigger] orig[i], out@[i]),
            orig == es0@,
        decreases rev.len(),
    {
        let k = out.len();
        let e = rev.pop().unwrap();
        assert(e == orig[k as int]);
        assert(decreases_to!(es0 => es0@));
        assert(decreases_to!(es0@ => orig[k as int]));
        assert(decreases_to!(es0 => e));
        let d = desugar_expr(e);
        out.push(d);
    }
    out
}

/// Desugars the expression of each positional argument, in order.
#[verifier::loop_isolation(false)]
fn desugar_pos_args(args: Vec<crate::hir::PosArg>) -> (r: Vec<crate::hir::PosArg>)
    ensures
        r@.len() == args@.len(),
        forall|i: int| 0 <= i < args@.len() ==> desugared(#[trigger] args@[i].expr, r@[i].expr),
    decreases args,
{
    let ghost orig = args@;
    let ghost args0 = args;
    let mut rev = reversed(args);
    let mut out: Vec<crate::hir::PosArg> = Vec::new();
    while rev.len() > 0
        invariant
            rev@.len() + out@.len() == orig.len(),
            forall|i: int| 0 <= i < rev@.len() ==> #[trigger] rev@[i] == orig[orig.len() - 1 - i],
            forall|i: int| 0 <= i < out@.len() ==> desugared(#[trigger] orig[i].expr, out@[i].expr),
            orig == args0@,
        decreases rev.len(),
    {
        let k = out.len();
        let a = rev.pop().unwrap();
        assert(a == orig[k as int]);
        assert(decreases_to!(args0 => args0@));
        assert(decreases_to!(args0@ => orig[k as int]));
        assert(decreases_to!(orig[k as int] => orig[k as int].expr));
        assert(decreases_to!(args0 => a.expr));
        let d = desugar_expr(a.expr);
        out.push(crate::hir::PosArg { expr: d });
    }
    out
}

/// Desugars one expression.
fn desugar_expr(e: Expr) -> (r: Expr)
    ensures
        desugared(e, r),
    decreases e,
{
    match e {
        Expr::ClassDef(cd) => desugar_class(cd),
        Expr::Code(b) => Expr::Code(Block(desugar_all(b.0))),
        Expr::Compound(b) => Expr::Compound(Block(desugar_all(b.0))),
        Expr::Def(d) => {
            let Def { sig, body } = d;
            let block = desugar_all(body.block.0);
            Expr::Def(Def { sig, body: crate::hir::DefBody { block: Block(block) } })
        },
        Expr::Call(c) => {
            let crate::hir::Call { obj, attr_name, args, t, constructs_effectful_instance } = c;
            let crate::hir::Args { pos_args, var_args, kw_args, kw_var, paren } = args;
            let pos_args = desugar_pos_args(pos_args);
            Expr::Call(
                crate::hir::Call {
                    obj,
                    attr_name,
                    args: crate::hir::Args { pos_args, var_args, kw_args, kw_var, paren },
                    t,
                    constructs_effectful_instance,
                },
            )
        },
        other => other,
    }
}

/// `after` is `before` with each top-level expression desugared.
pub open spec fn hir_desugared(before: HIR, after: HIR) -> bool {
    &&& after.name == before.name
    &&& after.module.0@.len() == before.module.0@.len()
    &&& forall|i: int|
        0 <= i < before.module.0@.len() ==> desugared(
            #[trigger] before.module.0@[i],
            after.module.0@[i],
        )
}

/// Desugars the HIR to make it more like Python semantics.
pub struct HIRDesugarer {}

impl HIRDesugarer {
    pub fn desugar(hir: HIR) -> (r: HIR)
        ensures
            hir_desugared(hir, r),
    {
        Self::desugar_class_member(hir)
    }

    /// Moves the static members of every class out of its body.
    pub fn desugar_class_member(hir: HIR) -> (r: HIR)
        ensures
            hir_desugared(hir, r),
    {
        let HIR { name, module } = hir;
        let module = desugar_all(module.0);
        HIR { name, module: Module(module) }
    }

    /// Desugars one top-level expression in place.
    pub fn desugar_class_member_expr(chunk: &mut Expr)
        ensures
            desugared(*old(chunk), *final(chunk)),
    {
        let mut taken = Expr::Dummy(Dummy(Vec::new()));
        std::mem::swap(chunk, &mut taken);
        *chunk = desugar_expr(taken);
    }
}

/// Every member of every class body reached by desugaring is a definition
/// or an expression that is its own desugaring.
pub open spec fn class_members_plain(e: Expr) -> bool
    decreases e,
{
    match e {
        Expr::ClassDef(cd) => forall|i: int, j: int|
            0 <= i < cd.methods_list@.len() && 0 <= j < cd.methods_list@[i].defs.0@.len() ==> {
                let m = #[trigger] cd.methods_list@[i].defs.0@[j];
                m is Def || desugared(m, m)
            },
        Expr::Code(b) => forall|i: int| 0 <= i < b.0@.len() ==> class_members_plain(#[trigger] b.0@[i]),
        Expr::Compound(b) => forall|i: int|
            0 <= i < b.0@.len() ==> class_members_plain(#[trigger] b.0@[i]),
        Expr::Def(d) => forall|i: int|
            0 <= i < d.body.block.0@.len() ==> class_members_plain(#[trigger] d.body.block.0@[i]),
        Expr::Call(c) => forall|i: int|
            0 <= i < c.args.pos_args@.len() ==> class_members_plain(#[trigger] c.args.pos_args@[i].expr),
        _ => true,
    }
}

proof fn lemma_methods_of_methods(s: Seq<Expr>)
    ensures
        methods_of(methods_of(s)) == methods_of(s),
        forall|i: int| 0 <= i < methods_of(s).len() ==> is_method_def(#[trigger] methods_of(s)[i]),
    decreases s.len(),
{
    if s.len() > 0 {
        lemma_methods_of_methods(s.drop_last());
        let rest = methods_of(s.drop_last());
        if is_method_def(s.last()) {
            assert(rest.push(s.last()).drop_last() == rest);
        }
    }
}

proof fn lemma_statics_of_methods(c: Expr, s: Seq<Expr>)
    requires
        forall|i: int| 0 <= i < s.len() ==> is_method_def(#[trigger] s[i]),
    ensures
        statics_of(c, s) == Seq::<Expr>::empty(),
    decreases s.len(),
{
    if s.len() > 0 {
        lemma_statics_of_methods(c, s.drop_last());
        assert(is_method_def(s[s.len() - 1]));
    }
}

proof fn lemma_class_statics_kept(c: Expr, ms: Seq<Methods>)
    requires
        forall|i: int|
            0 <= i < ms.len() ==> (#[trigger] ms[i]).defs.0@ == methods_of(ms[i].defs.0@),
    ensures
        class_statics(c, ms) == Seq::<Expr>::empty(),
    decreases ms.len(),
{
    if ms.len() > 0 {
        lemma_class_statics_kept(c, ms.drop_last());
        let last = ms[ms.len() - 1];
        lemma_methods_of_methods(last.defs.0@);
        lemma_statics_of_methods(c, last.defs.0@);
    }
}

/// The statics of a body whose members are definitions or fixed points of
/// desugaring are each a fixed point of desugaring.
proof fn lemma_statics_fixed(c: Expr, s: Seq<Expr>)
    requires
        forall|j: int| 0 <= j < s.len() ==> (#[trigger] s[j] is Def || desugared(s[j], s[j])),
    ensures
        forall|j: int|
            0 <= j < statics_of(c, s).len() ==> desugared(
                #[trigger] statics_of(c, s)[j],
                statics_of(c, s)[j],
            ),
    decreases s.len(),
{
    if s.len() > 0 {
        lemma_statics_fixed(c, s.drop_last());
        let rest = statics_of(c, s.drop_last());
        let x = s[s.len() - 1];
        if !is_method_def(x) {
            let y = as_static_member(c, x);
            assert(desugared(y, y));
            assert forall|j: int| 0 <= j < rest.push(y).len() implies desugared(
                #[trigger] rest.push(y)[j],
                rest.push(y)[j],
            ) by {
                if j < rest.len() {
                    assert(rest.push(y)[j] == rest[j]);
                }
            }
        }
    }
}

proof fn lemma_class_statics_fixed(c: Expr, ms: Seq<Methods>)
    requires
        forall|i: int, j: int|
            0 <= i < ms.len() && 0 <= j < ms[i].defs.0@.len() ==> {
                let m = #[trigger] ms[i].defs.0@[j];
                m is Def || desugared(m, m)
            },
    ensures
        forall|j: int|
            0 <= j < class_statics(c, ms).len() ==> desugared(
                #[trigger] class_statics(c, ms)[j],
                class_statics(c, ms)[j],
            ),
    decreases ms.len(),
{
    if ms.len() > 0 {
        lemma_class_statics_fixed(c, ms.drop_last());
        let last = ms[ms.len() - 1];
        assert forall|j: int| 0 <= j < last.defs.0@.len() implies (#[trigger] last.defs.0@[j] is Def
            || desugared(last.defs.0@[j], last.defs.0@[j])) by {
            assert(ms[ms.len() - 1].defs.0@[j] == last.defs.0@[j]);
        }
        lemma_statics_fixed(c, last.defs.0@);
        let a = class_statics(c, ms.drop_last());
        let b = statics_of(c, last.defs.0@);
        assert forall|j: int| 0 <= j < (a + b).len() implies desugared(
            #[trigger] (a + b)[j],
            (a + b)[j],
        ) by {
            if j < a.len() {
                assert((a + b)[j] == a[j]);
            } else {
                assert((a + b)[j] == b[j - a.len()]);
            }
        }
    }
}

/// A class definition that keeps only methods is a fixed point.
proof fn lemma_kept_class_fixed(cd: ClassDef, acd: ClassDef)
    requires
        methods_kept(cd, acd),
    ensures
        desugared(Expr::ClassDef(acd), Expr::ClassDef(acd)),
{
    assert forall|i: int| 0 <= i < acd.methods_list@.len() implies (#[trigger] acd.methods_list@[i]).defs.0@
        == methods_of(acd.methods_list@[i].defs.0@) by {
        let m = cd.methods_list@[i];
        lemma_methods_of_methods(m.defs.0@);
    }
    lemma_class_statics_kept(class_expr(acd), acd.methods_list@);
    assert forall|i: int| 0 <= i < acd.methods_list@.len() implies {
        let (m, am) = (#[trigger] acd.methods_list@[i], acd.methods_list@[i]);
        &&& am.class == m.class
        &&& am.impl_trait == m.impl_trait
        &&& am.defs.0@ == methods_of(m.defs.0@)
    } by {
        lemma_methods_of_methods(cd.methods_list@[i].defs.0@);
    }
}

/// Desugaring is idempotent: when every member of every class body is a
/// definition or its own desugaring, a desugared expression is its own
/// desugaring.
pub proof fn lemma_desugar_idempotent(before: Expr, after: Expr)
    requires
        desugared(before, after),
        class_members_plain(before),
    ensures
        desugared(after, after),
    decreases before,
{
    match before {
        Expr::ClassDef(cd) => {
            let statics = class_statics(class_expr(cd), cd.methods_list@);
            if statics.len() == 0 {
                lemma_kept_class_fixed(cd, after->ClassDef_0);
            } else {
                let b = after->Compound_0.0@;
                let acd = b[0]->ClassDef_0;
                lemma_kept_class_fixed(cd, acd);
                lemma_class_statics_fixed(class_expr(cd), cd.methods_list@);
                assert forall|i: int| 0 <= i < b.len() implies desugared(#[trigger] b[i], b[i]) by {
                    if i > 0 {
                        assert(b[i] == b.skip(1)[i - 1]);
                    }
                }
            }
        },
        Expr::Code(bl) => {
            let b = after->Code_0.0@;
            assert forall|i: int| 0 <= i < b.len() implies desugared(#[trigger] b[i], b[i]) by {
                lemma_desugar_idempotent(bl.0@[i], b[i]);
            }
        },
        Expr::Compound(bl) => {
            let b = after->Compound_0.0@;
            assert forall|i: int| 0 <= i < b.len() implies desugared(#[trigger] b[i], b[i]) by {
                lemma_desugar_idempotent(bl.0@[i], b[i]);
            }
        },
        Expr::Def(d) => {
            let b = after->Def_0.body.block.0@;
            assert forall|i: int| 0 <= i < b.len() implies desugared(#[trigger] b[i], b[i]) by {
                lemma_desugar_idempotent(d.body.block.0@[i], b[i]);
            }
        },
        Expr::Call(c) => {
            let b = after->Call_0.args.pos_args@;
            assert forall|i: int| 0 <= i < b.len() implies desugared(
                #[trigger] b[i].expr,
                b[i].expr,
            ) by {
                lemma_desugar_idempotent(c.args.pos_args@[i].expr, b[i].expr);
            }
        },
        _ => {},
    }
}


/// Statics keep their source order: those of a body made of `s1` then `s2`
/// are those of `s1` followed by those of `s2`; a method stays in the class
/// and any other member becomes one assignment. Likewise the methods kept.
pub proof fn lemma_body_order_kept(class: Expr, s1: Seq<Expr>, s2: Seq<Expr>, e: Expr)
    ensures
        statics_of(class, s1 + s2) == statics_of(class, s1) + statics_of(class, s2),
        methods_of(s1 + s2) == methods_of(s1) + methods_of(s2),
        statics_of(class, seq![e]) == (if is_method_def(e) {
            Seq::<Expr>::empty()
        } else {
            seq![as_static_member(class, e)]
        }),
        methods_of(seq![e]) == (if is_method_def(e) {
            seq![e]
        } else {
            Seq::<Expr>::empty()
        }),
    decreases s2.len(),
{
    assert(seq![e].drop_last() =~= Seq::<Expr>::empty());
    assert(seq![e].last() == e);
    assert(statics_of(class, Seq::<Expr>::empty()) == Seq::<Expr>::empty());
    assert(methods_of(Seq::<Expr>::empty()) == Seq::<Expr>::empty());
    assert(Seq::<Expr>::empty().push(as_static_member(class, e)) =~= seq![as_static_member(class, e)]);
    assert(Seq::<Expr>::empty().push(e) =~= seq![e]);
    if s2.len() == 0 {
        assert(s1 + s2 =~= s1);
    } else {
        lemma_body_order_kept(class, s1, s2.drop_last(), e);
        assert((s1 + s2).drop_last() =~= s1 + s2.drop_last());
        assert((s1 + s2).last() == s2.last());
        if is_method_def(s2.last()) {
        } else {
            assert(statics_of(class, s1) + statics_of(class, s2) =~= (statics_of(class, s1)
                + statics_of(class, s2.drop_last())).push(as_static_member(class, s2.last())));
            assert(methods_of(s1) + methods_of(s2) =~= methods_of(s1) + methods_of(s2.drop_last()));
        }
        if is_method_def(s2.last()) {
            assert(methods_of(s1) + methods_of(s2) =~= (methods_of(s1) + methods_of(
                s2.drop_last(),
            )).push(s2.last()));
            assert(statics_of(class, s1) + statics_of(class, s2) =~= statics_of(class, s1)
                + statics_of(class, s2.drop_last()));
        }
    }
}

/// Across the bodies of a class, statics keep the order of the bodies: the
/// statics of bodies `ms1` then `ms2` are those of `ms1` followed by those
/// of `ms2`, and a single body contributes its own statics.
pub proof fn lemma_bodies_order_kept(class: Expr, ms1: Seq<Methods>, ms2: Seq<Methods>, m: Methods)
    ensures
        class_statics(class, ms1 + ms2) == class_statics(class, ms1) + class_statics(class, ms2),
        class_statics(class, seq![m]) == statics_of(class, m.defs.0@),
    decreases ms2.len(),
{
    assert(seq![m].drop_last() =~= Seq::<Methods>::empty());
    assert(seq![m].last() == m);
    assert(class_statics(class, Seq::<Methods>::empty()) == Seq::<Expr>::empty());
    assert(Seq::<Expr>::empty() + statics_of(class, m.defs.0@) =~= statics_of(class, m.defs.0@));
    if ms2.len() == 0 {
        assert(ms1 + ms2 =~= ms1);
        assert(class_statics(class, ms1) + Seq::<Expr>::empty() =~= class_statics(class, ms1));
    } else {
        lemma_bodies_order_kept(class, ms1, ms2.drop_last(), m);
        assert((ms1 + ms2).drop_last() =~= ms1 + ms2.drop_last());
        assert((ms1 + ms2).last() == ms2.last());
        let a = class_statics(class, ms1);
        let b = class_statics(class, ms2.drop_last());
        let c = statics_of(class, ms2.last().defs.0@);
        assert((a + b) + c =~= a + (b + c));
    }
}

} // verus!
