//! The side-effect checker: side effects are not allowed in functions and
//! other pure blocks, and procedures must be bound to names ending in `!`.
//!
//! For example, `p!()` has a side effect; `q! = p!` and `y = f(p!)` have
//! none; `for iter, i -> print! i` violates purity.
use vstd::prelude::*;

use crate::error::{
    constructor_destructor_view, has_effect_view, proc_assign_view, touch_mut_view, CompileError,
    CompileErrors, ErrorView, Location,
};
use crate::hir::{
    acc_t, is_procedural_name, root_obj_of, t_of, Accessor, Call, Def, DefaultParamSignature, Dict,
    Expr, KeyValue, KwArg, List, Methods, NonDefaultParamSignature, Params, PosArg, SetLit,
    Signature, Tuple, HIR,
};
use crate::token::TokenKind;

verus! {

/// The kind of block being checked.
#[derive(Debug, Clone, Copy, PartialEq, Eq, Structural)]
pub enum BlockKind {
    /// forbids side effects
    Func,
    /// forbids side effects
    ConstFunc,
    /// forbids side effects, e.g. a type definition
    ConstInstant,
    /// allows side effects
    Proc,
    /// allows side effects
    Instant,
    /// allows side effects
    Module,
}

/// A namespace on the path of the checker: its visibility and its name.
#[derive(Debug)]
pub struct Visibility {
    pub is_public: bool,
    pub def_namespace: String,
}

impl View for Visibility {
    type V = (bool, Seq<char>);

    open spec fn view(&self) -> (bool, Seq<char>) {
        (self.is_public, self.def_namespace@)
    }
}

impl Visibility {
    pub fn new(is_public: bool, def_namespace: String) -> (v: Self)
        ensures
            v@ == (is_public, def_namespace@),
    {
        Visibility { is_public, def_namespace }
    }

    pub fn private(def_namespace: String) -> (v: Self)
        ensures
            v@ == (false, def_namespace@),
    {
        Visibility { is_public: false, def_namespace }
    }

    pub fn is_public(&self) -> (b: bool)
        ensures
            b == self.is_public,
    {
        self.is_public
    }
}

/// The views of the namespaces on the path.
pub open spec fn paths_view(ps: Seq<Visibility>) -> Seq<(bool, Seq<char>)> {
    ps.map_values(|v: Visibility| v@)
}

/// The namespaces joined, each preceded by `.` if public and by `::` if not.
pub open spec fn joined_path(ps: Seq<(bool, Seq<char>)>) -> Seq<char>
    decreases ps.len(),
{
    if ps.len() == 0 {
        seq![]
    } else {
        let (is_public, ns) = ps.last();
        joined_path(ps.drop_last()) + (if is_public {
            "."@
        } else {
            "::"@
        }) + ns
    }
}

/// `s` without its leading `.` and `:` characters.
pub open spec fn trim_seps(s: Seq<char>) -> Seq<char>
    decreases s.len(),
{
    if s.len() > 0 && (s[0] == '.' || s[0] == ':') {
        trim_seps(s.skip(1))
    } else {
        s
    }
}

/// The full path of the namespace being checked, e.g. `<module>::f.g`.
pub open spec fn full_path_of(ps: Seq<(bool, Seq<char>)>) -> Seq<char> {
    trim_seps(joined_path(ps))
}

/// Side effects are allowed at the top level, in procedures, and in
/// instant blocks directly inside procedures, modules and instant blocks;
/// nowhere else.
pub open spec fn effects_allowed(bs: Seq<BlockKind>) -> bool {
    if bs.len() == 1 {
        true
    } else if bs.len() < 2 {
        false
    } else {
        let (outer, cur) = (bs[bs.len() - 2], bs.last());
        match (outer, cur) {
            (_, BlockKind::Func) => false,
            (_, BlockKind::ConstInstant) => false,
            (_, BlockKind::Proc) => true,
            (BlockKind::Proc, BlockKind::Instant) => true,
            (BlockKind::Module, BlockKind::Instant) => true,
            (BlockKind::Instant, BlockKind::Instant) => true,
            _ => false,
        }
    }
}

/// The kind of block a definition opens, from whether its name is
/// procedural, whether it is a subroutine and whether its name is constant;
/// `None` for a constant procedure, which is refused.
pub open spec fn def_block_kind(is_procedural: bool, is_subr: bool, is_const: bool) -> Option<
    BlockKind,
> {
    match (is_procedural, is_subr, is_const) {
        (true, true, true) => None,
        (true, true, false) => Some(BlockKind::Proc),
        (_, false, false) => Some(BlockKind::Instant),
        (false, true, true) => Some(BlockKind::ConstFunc),
        (false, true, false) => Some(BlockKind::Func),
        (_, false, true) => Some(BlockKind::ConstInstant),
    }
}

/// Errors in sequence; `None` (the check stops) if either part stops.
pub open spec fn opt_cat(a: Option<Seq<ErrorView>>, b: Option<Seq<ErrorView>>) -> Option<
    Seq<ErrorView>,
> {
    match (a, b) {
        (Some(x), Some(y)) => Some(x + y),
        _ => None,
    }
}

/// The error a parameter raises: a procedure bound to a name without `!`.
/// `None` when the parameter holds a procedure but is not a plain name.
pub open spec fn param_errs(ps: Seq<(bool, Seq<char>)>, p: NonDefaultParamSignature) -> Option<
    Seq<ErrorView>,
> {
    if p.vi.t.is_procedure {
        match p.name {
            Some(n) => if !is_procedural_name(n@) {
                Some(seq![proc_assign_view(0, Location::Unknown, full_path_of(ps))])
            } else {
                Some(seq![])
            },
            None => None,
        }
    } else {
        Some(seq![])
    }
}

pub open spec fn nd_params_errs(ps: Seq<(bool, Seq<char>)>, s: Seq<NonDefaultParamSignature>) -> Option<
    Seq<ErrorView>,
>
    decreases s.len(),
{
    if s.len() == 0 {
        Some(seq![])
    } else {
        opt_cat(param_errs(ps, s[0]), nd_params_errs(ps, s.skip(1)))
    }
}

pub open spec fn opt_param_errs(
    ps: Seq<(bool, Seq<char>)>,
    p: Option<Box<NonDefaultParamSignature>>,
) -> Option<Seq<ErrorView>> {
    match p {
        Some(b) => param_errs(ps, *b),
        None => Some(seq![]),
    }
}

/// The errors found when checking the expression `e` in the namespaces `ps`
/// and blocks `bs`, in the order they are raised; `None` if the check stops
/// (a constant procedure is defined, or a parameter that holds a procedure
/// is not a plain name).
pub open spec fn expr_errs(ps: Seq<(bool, Seq<char>)>, bs: Seq<BlockKind>, e: Expr) -> Option<
    Seq<ErrorView>,
>
    decreases e,
{
    let fp = full_path_of(ps);
    let allowed = effects_allowed(bs);
    match e {
        Expr::Literal(_) => Some(seq![]),
        Expr::Def(d) => def_errs(ps, bs, d),
        Expr::ClassDef(cd) => opt_cat(
            match cd.require_or_sup {
                Some(r) => expr_errs(ps, bs, *r),
                None => Some(seq![]),
            },
            bodies_errs(ps, bs, cd.methods_list@),
        ),
        Expr::PatchDef(pd) => opt_cat(expr_errs(ps, bs, *pd.base), exprs_errs(ps, bs, pd.methods.0@)),
        Expr::List(l) => match l {
            List::Normal(n) => pos_errs(ps, bs, n.elems.pos_args@),
            List::WithLength(w) => opt_cat(
                expr_errs(ps, bs, *w.elem),
                match w.len {
                    Some(len) => expr_errs(ps, bs, *len),
                    None => Some(seq![]),
                },
            ),
            List::Comprehension(c) => opt_cat(expr_errs(ps, bs, *c.elem), expr_errs(ps, bs, *c.guard)),
        },
        Expr::Tuple(Tuple::Normal(t)) => pos_errs(ps, bs, t.elems.pos_args@),
        Expr::Record(r) => attrs_errs(
            ps.push((false, "<record>"@)),
            bs.push(BlockKind::Instant),
            r.attrs.0@,
        ),
        Expr::SetLit(st) => match st {
            SetLit::Normal(n) => pos_errs(ps, bs, n.elems.pos_args@),
            SetLit::WithLength(w) => opt_cat(expr_errs(ps, bs, *w.elem), expr_errs(ps, bs, *w.len)),
        },
        Expr::Dict(Dict::Normal(d)) => kv_errs(ps, bs, d.kvs@),
        Expr::Call(c) => {
            let ctor = if c.constructs_effectful_instance && !allowed {
                seq![constructor_destructor_view(0, Location::Unknown, fp)]
            } else {
                seq![]
            };
            let effectful = t_of(*c.obj).is_procedure || (c.attr_name matches Some(n)
                && is_procedural_name(n.name@));
            let eff = if effectful && !allowed {
                seq![has_effect_view(0, Location::Unknown, fp)]
            } else {
                seq![]
            };
            opt_cat(
                Some(ctor),
                opt_cat(
                    expr_errs(ps, bs, *c.obj),
                    opt_cat(
                        Some(eff),
                        opt_cat(pos_errs(ps, bs, c.args.pos_args@), kw_errs(ps, bs, c.args.kw_args@)),
                    ),
                ),
            )
        },
        Expr::UnaryOp(u) => expr_errs(ps, bs, *u.expr),
        Expr::BinOp(b) => {
            let eff = if (b.op.kind == TokenKind::IsOp || b.op.kind == TokenKind::IsNotOp)
                && !allowed {
                seq![has_effect_view(0, Location::Unknown, fp)]
            } else {
                seq![]
            };
            opt_cat(expr_errs(ps, bs, *b.lhs), opt_cat(expr_errs(ps, bs, *b.rhs), Some(eff)))
        },
        Expr::Lambda(l) => {
            let is_proc = l.op.kind == TokenKind::ProcArrow;
            let ps2 = ps.push(
                (
                    false,
                    if is_proc {
                        "<lambda!>"@
                    } else {
                        "<lambda>"@
                    },
                ),
            );
            let bs2 = bs.push(
                if is_proc {
                    BlockKind::Proc
                } else {
                    BlockKind::Func
                },
            );
            opt_cat(params_errs(ps2, bs2, l.params), exprs_errs(ps2, bs2, l.body.0@))
        },
        Expr::TypeAsc(t) => expr_errs(ps, bs, *t.expr),
        Expr::Accessor(acc) => {
            let vi = acc.spec_var_info();
            let root_not_ref = match root_obj_of(acc) {
                Some(obj) => !t_of(obj).is_ref,
                None => true,
            };
            if !allowed && !vi.is_parameter && acc_t(acc).is_mut_type && root_not_ref
                && vi.def_namespace@ != fp {
                Some(seq![touch_mut_view(0, Location::Unknown, Expr::Accessor(acc), fp)])
            } else {
                Some(seq![])
            }
        },
        Expr::ReDef(_) => Some(seq![]),
        Expr::Code(_) => Some(seq![]),
        Expr::Compound(_) => Some(seq![]),
        Expr::Import(_) => Some(seq![]),
        Expr::Dummy(_) => Some(seq![]),
    }
}

/// The errors of the parameters of a subroutine: those of the parameters
/// without default, of `*args`, then of each parameter with default
/// followed by those of its default value.
pub open spec fn params_errs(ps: Seq<(bool, Seq<char>)>, bs: Seq<BlockKind>, p: Params) -> Option<
    Seq<ErrorView>,
>
    decreases p,
{
    opt_cat(
        nd_params_errs(ps, p.non_defaults@),
        opt_cat(opt_param_errs(ps, p.var_params), defaults_errs(ps, bs, p.defaults@)),
    )
}

pub open spec fn defaults_errs(
    ps: Seq<(bool, Seq<char>)>,
    bs: Seq<BlockKind>,
    s: Seq<DefaultParamSignature>,
) -> Option<Seq<ErrorView>>
    decreases s,
{
    if s.len() == 0 {
        Some(seq![])
    } else {
        opt_cat(
            opt_cat(param_errs(ps, s[0].sig), expr_errs(ps, bs, s[0].default_val)),
            defaults_errs(ps, bs, s.skip(1)),
        )
    }
}

/// The errors of a definition: a subroutine opens a namespace named after
/// it; the definition opens a block of the kind `def_block_kind` gives; the
/// parameters and the body are checked inside; and a plain variable whose
/// value is a procedure must have a name ending in `!`.
pub open spec fn def_errs(ps: Seq<(bool, Seq<char>)>, bs: Seq<BlockKind>, d: Def) -> Option<
    Seq<ErrorView>,
>
    decreases d,
{
    let is_subr = d.sig is Subr;
    let ps2 = if is_subr {
        ps.push((d.sig.spec_is_public(), d.sig.spec_ident().name@))
    } else {
        ps
    };
    match def_block_kind(d.sig.spec_is_procedural(), is_subr, d.sig.spec_is_const()) {
        None => None,
        Some(k) => {
            let bs2 = bs.push(k);
            let params = match d.sig {
                Signature::Subr(s) => params_errs(ps2, bs2, s.params),
                _ => Some(seq![]),
            };
            let body = d.body.block.0@;
            let last = if body.len() > 0 && k == BlockKind::Instant && !d.sig.spec_is_procedural()
                && t_of(body.last()).is_procedure {
                seq![proc_assign_view(0, Location::Unknown, full_path_of(ps2))]
            } else {
                seq![]
            };
            opt_cat(params, opt_cat(exprs_errs(ps2, bs2, body), Some(last)))
        },
    }
}

pub open spec fn exprs_errs(ps: Seq<(bool, Seq<char>)>, bs: Seq<BlockKind>, s: Seq<Expr>) -> Option<
    Seq<ErrorView>,
>
    decreases s,
{
    if s.len() == 0 {
        Some(seq![])
    } else {
        opt_cat(expr_errs(ps, bs, s[0]), exprs_errs(ps, bs, s.skip(1)))
    }
}

pub open spec fn pos_errs(ps: Seq<(bool, Seq<char>)>, bs: Seq<BlockKind>, s: Seq<PosArg>) -> Option<
    Seq<ErrorView>,
>
    decreases s,
{
    if s.len() == 0 {
        Some(seq![])
    } else {
        opt_cat(expr_errs(ps, bs, s[0].expr), pos_errs(ps, bs, s.skip(1)))
    }
}

pub open spec fn kw_errs(ps: Seq<(bool, Seq<char>)>, bs: Seq<BlockKind>, s: Seq<KwArg>) -> Option<
    Seq<ErrorView>,
>
    decreases s,
{
    if s.len() == 0 {
        Some(seq![])
    } else {
        opt_cat(expr_errs(ps, bs, s[0].expr), kw_errs(ps, bs, s.skip(1)))
    }
}

pub open spec fn kv_errs(ps: Seq<(bool, Seq<char>)>, bs: Seq<BlockKind>, s: Seq<KeyValue>) -> Option<
    Seq<ErrorView>,
>
    decreases s,
{
    if s.len() == 0 {
        Some(seq![])
    } else {
        opt_cat(
            opt_cat(expr_errs(ps, bs, s[0].key), expr_errs(ps, bs, s[0].value)),
            kv_errs(ps, bs, s.skip(1)),
        )
    }
}

pub open spec fn attrs_errs(ps: Seq<(bool, Seq<char>)>, bs: Seq<BlockKind>, s: Seq<Def>) -> Option<
    Seq<ErrorView>,
>
    decreases s,
{
    if s.len() == 0 {
        Some(seq![])
    } else {
        opt_cat(def_errs(ps, bs, s[0]), attrs_errs(ps, bs, s.skip(1)))
    }
}

/// The errors of all the method bodies of a class, body by body.
pub open spec fn bodies_errs(ps: Seq<(bool, Seq<char>)>, bs: Seq<BlockKind>, s: Seq<Methods>) -> Option<
    Seq<ErrorView>,
>
    decreases s,
{
    if s.len() == 0 {
        Some(seq![])
    } else {
        opt_cat(exprs_errs(ps, bs, s[0].defs.0@), bodies_errs(ps, bs, s.skip(1)))
    }
}

fn is_sep_at(s: &str, k: usize) -> (b: bool)
    requires
        k < s@.len(),
    ensures
        b == (s@[k as int] == '.' || s@[k as int] == ':'),
{
    let c = s.get_char(k);
    c == '.' || c == ':'
}

/// Checks code for side effects: expressions with side effects must not be
/// used in functions, and procedures must be bound to names ending in `!`.
/// The HIR of this library carries no source positions, so its diagnostics
/// point at `Location::Unknown`, with error number 0.
#[derive(Debug)]
pub struct SideEffectChecker {
    path_stack: Vec<Visibility>,
    block_stack: Vec<BlockKind>,
    errs: CompileErrors,
}

impl SideEffectChecker {
    /// The namespaces being checked, outermost first.
    pub closed spec fn ps(&self) -> Seq<(bool, Seq<char>)> {
        paths_view(self.path_stack@)
    }

    /// The blocks being checked, outermost first.
    pub closed spec fn bs(&self) -> Seq<BlockKind> {
        self.block_stack@
    }

    /// The errors found so far.
    pub closed spec fn es(&self) -> Seq<ErrorView> {
        self.errs@
    }

    pub fn new() -> (c: Self)
        ensures
            c.ps().len() == 0,
            c.bs().len() == 0,
            c.es().len() == 0,
    {
        let c = SideEffectChecker {
            path_stack: Vec::new(),
            block_stack: Vec::new(),
            errs: CompileErrors::empty(),
        };
        assert(c.ps() =~= Seq::<(bool, Seq<char>)>::empty());
        c
    }

    /// The full path of the namespace being checked.
    fn full_path(&self) -> (s: String)
        ensures
            s@ == full_path_of(self.ps()),
    {
        proof {
            reveal_strlit(".");
            reveal_strlit("::");
        }
        let ghost ps = self.ps();
        let mut s = String::new();
        let mut i: usize = 0;
        while i < self.path_stack.len()
            invariant
                i <= self.path_stack@.len(),
                ps == paths_view(self.path_stack@),
                s@ == joined_path(ps.take(i as int)),
            decreases self.path_stack.len() - i,
        {
            let v = &self.path_stack[i];
            assert(ps.take(i as int + 1).drop_last() == ps.take(i as int));
            assert(ps.take(i as int + 1).last() == v@);
            if v.is_public {
                s.append(".");
            } else {
                s.append("::");
            }
            s.append(v.def_namespace.as_str());
            i += 1;
        }
        assert(ps.take(i as int) == ps);
        let ghost joined = s@;
        let n = s.as_str().unicode_len();
        let mut k: usize = 0;
        assert(joined.skip(0) == joined);
        while k < n && is_sep_at(s.as_str(), k)
            invariant
                k <= n,
                n == joined.len(),
                s@ == joined,
                trim_seps(joined) == trim_seps(joined.skip(k as int)),
            decreases n - k,
        {
            assert(joined.skip(k as int).skip(1) == joined.skip(k as int + 1));
            k += 1;
        }
        if k < n {
            assert(joined.skip(k as int)[0] == joined[k as int]);
        } else {
            assert(joined.skip(k as int).len() == 0);
        }
        let trimmed = s.as_str().substring_char(k, n);
        assert(joined.skip(k as int) == joined.subrange(k as int, n as int));
        String::from_str(trimmed)
    }

    /// Whether side effects are allowed in the block being checked.
    fn in_context_effects_allowed(&self) -> (b: bool)
        requires
            self.bs().len() >= 1,
        ensures
            b == effects_allowed(self.bs()),
    {
        let n = self.block_stack.len();
        if n == 1 {
            return true;
        }
        let outer = self.block_stack[n - 2];
        let cur = self.block_stack[n - 1];
        match (outer, cur) {
            (_, BlockKind::Func) | (_, BlockKind::ConstInstant) => false,
            (_, BlockKind::Proc) => true,
            (BlockKind::Proc, BlockKind::Instant)
            | (BlockKind::Module, BlockKind::Instant)
            | (BlockKind::Instant, BlockKind::Instant) => true,
            _ => false,
        }
    }

    fn push_path(&mut self, v: Visibility)
        ensures
            final(self).ps() == old(self).ps().push(v@),
            final(self).bs() == old(self).bs(),
            final(self).es() == old(self).es(),
            final(self).path_stack@ == old(self).path_stack@.push(v),
    {
        self.path_stack.push(v);
        assert(self.ps() =~= old(self).ps().push(v@));
    }

    fn pop_path(&mut self)
        requires
            old(self).path_stack@.len() > 0,
        ensures
            final(self).path_stack@ == old(self).path_stack@.drop_last(),
            final(self).ps() == paths_view(old(self).path_stack@.drop_last()),
            final(self).bs() == old(self).bs(),
            final(self).es() == old(self).es(),
    {
        let _ = self.path_stack.pop();
    }

    /// Checks the parameter `p`.
    fn check_param(&mut self, p: &NonDefaultParamSignature)
        requires
            param_errs(old(self).ps(), *p) is Some,
        ensures
            final(self).path_stack@ == old(self).path_stack@,
            final(self).block_stack@ == old(self).block_stack@,
            final(self).es() == old(self).es() + param_errs(old(self).ps(), *p)->Some_0,
    {
        if p.vi.t.is_procedure {
            match &p.name {
                Some(n) => {
                    if !crate::strutil::ends_with_char(n.as_str(), '!') {
                        let fp = self.full_path();
                        self.errs.push(CompileError::proc_assign_error(0, Location::Unknown, fp));
                    } else {
                        assert(self.es() == old(self).es() + Seq::<ErrorView>::empty());
                    }
                },
                None => {},
            }
        } else {
            assert(self.es() == old(self).es() + Seq::<ErrorView>::empty());
        }
    }
}


impl SideEffectChecker {

    fn check_exprs(&mut self, s: &Vec<Expr>)
        requires
            old(self).bs().len() >= 1,
            exprs_errs(old(self).ps(), old(self).bs(), s@) is Some,
        ensures
            final(self).path_stack@ == old(self).path_stack@,
            final(self).block_stack@ == old(self).block_stack@,
            final(self).es() == old(self).es() + exprs_errs(old(self).ps(), old(self).bs(), s@)->Some_0,
        decreases s,
    {
        let ghost ps = self.ps();
        let ghost bs = self.bs();
        let ghost start = self.es();
        let ghost total = exprs_errs(ps, bs, s@)->Some_0;
        let mut i: usize = 0;
        assert(s@.skip(0) == s@);
        while i < s.len()
            invariant
                i <= s@.len(),
                self.path_stack@ == old(self).path_stack@,
                self.block_stack@ == old(self).block_stack@,
                ps == self.ps(),
                bs == self.bs(),
                bs.len() >= 1,
                exprs_errs(ps, bs, s@.skip(i as int)) is Some,
                self.es() + exprs_errs(ps, bs, s@.skip(i as int))->Some_0 == start + total,
            decreases s.len() - i,
        {
            let ghost rest = s@.skip(i as int);
            let ghost before = self.es();
            assert(rest.skip(1) == s@.skip(i as int + 1));
            assert(rest[0] == s@[i as int]);
            assert(decreases_to!(*s => s@));
            assert(decreases_to!(s@ => s@[i as int]));
            self.check_expr(&s[i]);
            let ghost after = self.es();
            let ghost r2 = exprs_errs(ps, bs, s@.skip(i as int + 1))->Some_0;
            assert(after + r2 =~= before + exprs_errs(ps, bs, rest)->Some_0);
            i += 1;
        }
        assert(s@.skip(i as int) =~= Seq::<Expr>::empty());
        assert(self.es() =~= start + total);
    }

    fn check_pos_args(&mut self, s: &Vec<PosArg>)
        requires
            old(self).bs().len() >= 1,
            pos_errs(old(self).ps(), old(self).bs(), s@) is Some,
        ensures
            final(self).path_stack@ == old(self).path_stack@,
            final(self).block_stack@ == old(self).block_stack@,
            final(self).es() == old(self).es() + pos_errs(old(self).ps(), old(self).bs(), s@)->Some_0,
        decreases s,
    {
        let ghost ps = self.ps();
        let ghost bs = self.bs();
        let ghost start = self.es();
        let ghost total = pos_errs(ps, bs, s@)->Some_0;
        let mut i: usize = 0;
        assert(s@.skip(0) == s@);
        while i < s.len()
            invariant
                i <= s@.len(),
                self.path_stack@ == old(self).path_stack@,
                self.block_stack@ == old(self).block_stack@,
                ps == self.ps(),
                bs == self.bs(),
                bs.len() >= 1,
                pos_errs(ps, bs, s@.skip(i as int)) is Some,
                self.es() + pos_errs(ps, bs, s@.skip(i as int))->Some_0 == start + total,
            decreases s.len() - i,
        {
            let ghost rest = s@.skip(i as int);
            let ghost before = self.es();
            assert(rest.skip(1) == s@.skip(i as int + 1));
            assert(rest[0] == s@[i as int]);
            assert(decreases_to!(*s => s@));
            assert(decreases_to!(s@ => s@[i as int]));
            assert(decreases_to!(s@[i as int] => s@[i as int].expr));
            self.check_expr(&s[i].expr);
            let ghost after = self.es();
            let ghost r2 = pos_errs(ps, bs, s@.skip(i as int + 1))->Some_0;
            assert(after + r2 =~= before + pos_errs(ps, bs, rest)->Some_0);
            i += 1;
        }
        assert(s@.skip(i as int) =~= Seq::<PosArg>::empty());
        assert(self.es() =~= start + total);
    }

    fn check_kw_args(&mut self, s: &Vec<KwArg>)
        requires
            old(self).bs().len() >= 1,
            kw_errs(old(self).ps(), old(self).bs(), s@) is Some,
        ensures
            final(self).path_stack@ == old(self).path_stack@,
            final(self).block_stack@ == old(self).block_stack@,
            final(self).es() == old(self).es() + kw_errs(old(self).ps(), old(self).bs(), s@)->Some_0,
        decreases s,
    {
        let ghost ps = self.ps();
        let ghost bs = self.bs();
        let ghost start = self.es();
        let ghost total = kw_errs(ps, bs, s@)->Some_0;
        let mut i: usize = 0;
        assert(s@.skip(0) == s@);
        while i < s.len()
            invariant
                i <= s@.len(),
                self.path_stack@ == old(self).path_stack@,
                self.block_stack@ == old(self).block_stack@,
                ps == self.ps(),
                bs == self.bs(),
                bs.len() >= 1,
                kw_errs(ps, bs, s@.skip(i as int)) is Some,
                self.es() + kw_errs(ps, bs, s@.skip(i as int))->Some_0 == start + total,
            decreases s.len() - i,
        {
            let ghost rest = s@.skip(i as int);
            let ghost before = self.es();
            assert(rest.skip(1) == s@.skip(i as int + 1));
            assert(rest[0] == s@[i as int]);
            assert(decreases_to!(*s => s@));
            assert(decreases_to!(s@ => s@[i as int]));
            assert(decreases_to!(s@[i as int] => s@[i as int].expr));
            self.check_expr(&s[i].expr);
            let ghost after = self.es();
            let ghost r2 = kw_errs(ps, bs, s@.skip(i as int + 1))->Some_0;
            assert(after + r2 =~= before + kw_errs(ps, bs, rest)->Some_0);
            i += 1;
        }
        assert(s@.skip(i as int) =~= Seq::<KwArg>::empty());
        assert(self.es() =~= start + total);
    }

    fn check_kvs(&mut self, s: &Vec<KeyValue>)
        requires
            old(self).bs().len() >= 1,
            kv_errs(old(self).ps(), old(self).bs(), s@) is Some,
        ensures
            final(self).path_stack@ == old(self).path_stack@,
            final(self).block_stack@ == old(self).block_stack@,
            final(self).es() == old(self).es() + kv_errs(old(self).ps(), old(self).bs(), s@)->Some_0,
        decreases s,
    {
        let ghost ps = self.ps();
        let ghost bs = self.bs();
        let ghost start = self.es();
        let ghost total = kv_errs(ps, bs, s@)->Some_0;
        let mut i: usize = 0;
        assert(s@.skip(0) == s@);
        while i < s.len()
            invariant
                i <= s@.len(),
                self.path_stack@ == old(self).path_stack@,
                self.block_stack@ == old(self).block_stack@,
                ps == self.ps(),
                bs == self.bs(),
                bs.len() >= 1,
                kv_errs(ps, bs, s@.skip(i as int)) is Some,
                self.es() + kv_errs(ps, bs, s@.skip(i as int))->Some_0 == start + total,
            decreases s.len() - i,
        {
            let ghost rest = s@.skip(i as int);
            let ghost before = self.es();
            assert(rest.skip(1) == s@.skip(i as int + 1));
            assert(rest[0] == s@[i as int]);
            assert(decreases_to!(*s => s@));
            assert(decreases_to!(s@ => s@[i as int]));
            assert(decreases_to!(s@[i as int] => s@[i as int].key));
            assert(decreases_to!(s@[i as int] => s@[i as int].value));
            self.check_expr(&s[i].key);
            self.check_expr(&s[i].value);
            assert(self.es() =~= before + expr_errs(ps, bs, s@[i as int].key)->Some_0 + expr_errs(ps, bs, s@[i as int].value)->Some_0);
            let ghost after = self.es();
            let ghost r2 = kv_errs(ps, bs, s@.skip(i as int + 1))->Some_0;
            assert(after + r2 =~= before + kv_errs(ps, bs, rest)->Some_0);
            i += 1;
        }
        assert(s@.skip(i as int) =~= Seq::<KeyValue>::empty());
        assert(self.es() =~= start + total);
    }

    fn check_attrs(&mut self, s: &Vec<Def>)
        requires
            old(self).bs().len() >= 1,
            attrs_errs(old(self).ps(), old(self).bs(), s@) is Some,
        ensures
            final(self).path_stack@ == old(self).path_stack@,
            final(self).block_stack@ == old(self).block_stack@,
            final(self).es() == old(self).es() + attrs_errs(old(self).ps(), old(self).bs(), s@)->Some_0,
        decreases s,
    {
        let ghost ps = self.ps();
        let ghost bs = self.bs();
        let ghost start = self.es();
        let ghost total = attrs_errs(ps, bs, s@)->Some_0;
        let mut i: usize = 0;
        assert(s@.skip(0) == s@);
        while i < s.len()
            invariant
                i <= s@.len(),
                self.path_stack@ == old(self).path_stack@,
                self.block_stack@ == old(self).block_stack@,
                ps == self.ps(),
                bs == self.bs(),
                bs.len() >= 1,
                attrs_errs(ps, bs, s@.skip(i as int)) is Some,
                self.es() + attrs_errs(ps, bs, s@.skip(i as int))->Some_0 == start + total,
            decreases s.len() - i,
        {
            let ghost rest = s@.skip(i as int);
            let ghost before = self.es();
            assert(rest.skip(1) == s@.skip(i as int + 1));
            assert(rest[0] == s@[i as int]);
            assert(decreases_to!(*s => s@));
            assert(decreases_to!(s@ => s@[i as int]));
            self.check_def(&s[i]);
            let ghost after = self.es();
            let ghost r2 = attrs_errs(ps, bs, s@.skip(i as int + 1))->Some_0;
            assert(after + r2 =~= before + attrs_errs(ps, bs, rest)->Some_0);
            i += 1;
        }
        assert(s@.skip(i as int) =~= Seq::<Def>::empty());
        assert(self.es() =~= start + total);
    }

    fn check_bodies(&mut self, s: &Vec<Methods>)
        requires
            old(self).bs().len() >= 1,
            bodies_errs(old(self).ps(), old(self).bs(), s@) is Some,
        ensures
            final(self).path_stack@ == old(self).path_stack@,
            final(self).block_stack@ == old(self).block_stack@,
            final(self).es() == old(self).es() + bodies_errs(old(self).ps(), old(self).bs(), s@)->Some_0,
        decreases s,
    {
        let ghost ps = self.ps();
        let ghost bs = self.bs();
        let ghost start = self.es();
        let ghost total = bodies_errs(ps, bs, s@)->Some_0;
        let mut i: usize = 0;
        assert(s@.skip(0) == s@);
        while i < s.len()
            invariant
                i <= s@.len(),
                self.path_stack@ == old(self).path_stack@,
                self.block_stack@ == old(self).block_stack@,
                ps == self.ps(),
                bs == self.bs(),
                bs.len() >= 1,
                bodies_errs(ps, bs, s@.skip(i as int)) is Some,
                self.es() + bodies_errs(ps, bs, s@.skip(i as int))->Some_0 == start + total,
            decreases s.len() - i,
        {
            let ghost rest = s@.skip(i as int);
            let ghost before = self.es();
            assert(rest.skip(1) == s@.skip(i as int + 1));
            assert(rest[0] == s@[i as int]);
            assert(decreases_to!(*s => s@));
            assert(decreases_to!(s@ => s@[i as int]));
            assert(decreases_to!(s@[i as int] => s@[i as int].defs));
            assert(decreases_to!(s@[i as int].defs => s@[i as int].defs.0));
            self.check_exprs(&s[i].defs.0);
            let ghost after = self.es();
            let ghost r2 = bodies_errs(ps, bs, s@.skip(i as int + 1))->Some_0;
            assert(after + r2 =~= before + bodies_errs(ps, bs, rest)->Some_0);
            i += 1;
        }
        assert(s@.skip(i as int) =~= Seq::<Methods>::empty());
        assert(self.es() =~= start + total);
    }
}

impl SideEffectChecker {
    fn check_nd_params(&mut self, s: &Vec<NonDefaultParamSignature>)
        requires
            nd_params_errs(old(self).ps(), s@) is Some,
        ensures
            final(self).path_stack@ == old(self).path_stack@,
            final(self).block_stack@ == old(self).block_stack@,
            final(self).es() == old(self).es() + nd_params_errs(old(self).ps(), s@)->Some_0,
    {
        let ghost ps = self.ps();
        let ghost start = self.es();
        let ghost total = nd_params_errs(ps, s@)->Some_0;
        let mut i: usize = 0;
        assert(s@.skip(0) == s@);
        while i < s.len()
            invariant
                i <= s@.len(),
                self.path_stack@ == old(self).path_stack@,
                self.block_stack@ == old(self).block_stack@,
                ps == self.ps(),
                nd_params_errs(ps, s@.skip(i as int)) is Some,
                self.es() + nd_params_errs(ps, s@.skip(i as int))->Some_0 == start + total,
            decreases s.len() - i,
        {
            let ghost rest = s@.skip(i as int);
            let ghost before = self.es();
            assert(rest.skip(1) == s@.skip(i as int + 1));
            assert(rest[0] == s@[i as int]);
            self.check_param(&s[i]);
            let ghost after = self.es();
            let ghost r2 = nd_params_errs(ps, s@.skip(i as int + 1))->Some_0;
            assert(after + r2 =~= before + nd_params_errs(ps, rest)->Some_0);
            i += 1;
        }
        assert(s@.skip(i as int) =~= Seq::<NonDefaultParamSignature>::empty());
        assert(self.es() =~= start + total);
    }

    fn check_defaults(&mut self, s: &Vec<DefaultParamSignature>)
        requires
            old(self).bs().len() >= 1,
            defaults_errs(old(self).ps(), old(self).bs(), s@) is Some,
        ensures
            final(self).path_stack@ == old(self).path_stack@,
            final(self).block_stack@ == old(self).block_stack@,
            final(self).es() == old(self).es() + defaults_errs(old(self).ps(), old(self).bs(), s@)->Some_0,
        decreases s,
    {
        let ghost ps = self.ps();
        let ghost bs = self.bs();
        let ghost start = self.es();
        let ghost total = defaults_errs(ps, bs, s@)->Some_0;
        let mut i: usize = 0;
        assert(s@.skip(0) == s@);
        while i < s.len()
            invariant
                i <= s@.len(),
                self.path_stack@ == old(self).path_stack@,
                self.block_stack@ == old(self).block_stack@,
                ps == self.ps(),
                bs == self.bs(),
                bs.len() >= 1,
                defaults_errs(ps, bs, s@.skip(i as int)) is Some,
                self.es() + defaults_errs(ps, bs, s@.skip(i as int))->Some_0 == start + total,
            decreases s.len() - i,
        {
            let ghost rest = s@.skip(i as int);
            let ghost before = self.es();
            assert(rest.skip(1) == s@.skip(i as int + 1));
            assert(rest[0] == s@[i as int]);
            assert(decreases_to!(*s => s@));
            assert(decreases_to!(s@ => s@[i as int]));
            assert(decreases_to!(s@[i as int] => s@[i as int].default_val));
            self.check_param(&s[i].sig);
            let ghost mid = self.es();
            self.check_expr(&s[i].default_val);
            let ghost after = self.es();
            assert(after =~= before + param_errs(ps, s@[i as int].sig)->Some_0 + expr_errs(ps, bs, s@[i as int].default_val)->Some_0);
            let ghost r2 = defaults_errs(ps, bs, s@.skip(i as int + 1))->Some_0;
            assert(after + r2 =~= before + defaults_errs(ps, bs, rest)->Some_0);
            i += 1;
        }
        assert(s@.skip(i as int) =~= Seq::<DefaultParamSignature>::empty());
        assert(self.es() =~= start + total);
    }

    fn check_params(&mut self, params: &Params)
        requires
            old(self).bs().len() >= 1,
            params_errs(old(self).ps(), old(self).bs(), *params) is Some,
        ensures
            final(self).path_stack@ == old(self).path_stack@,
            final(self).block_stack@ == old(self).block_stack@,
            final(self).es() == old(self).es() + params_errs(old(self).ps(), old(self).bs(), *params)->Some_0,
        decreases params,
    {
        let ghost ps = self.ps();
        let ghost bs = self.bs();
        self.check_nd_params(&params.non_defaults);
        let ghost e1 = self.es();
        match &params.var_params {
            Some(v) => {
                self.check_param(&**v);
            },
            None => {
                assert(self.es() == e1 + Seq::<ErrorView>::empty());
            },
        }
        let ghost e2 = self.es();
        self.check_defaults(&params.defaults);
        assert(self.es() =~= old(self).es() + params_errs(ps, bs, *params)->Some_0);
    }
}

impl SideEffectChecker {
    /// A call in a pure block must not create an instance whose constructor
    /// or destructor has side effects.
    fn constructor_destructor_check(&mut self, call: &Call)
        requires
            old(self).bs().len() >= 1,
        ensures
            final(self).path_stack@ == old(self).path_stack@,
            final(self).block_stack@ == old(self).block_stack@,
            final(self).es() == old(self).es() + if call.constructs_effectful_instance
                && !effects_allowed(old(self).bs()) {
                seq![constructor_destructor_view(0, Location::Unknown, full_path_of(old(self).ps()))]
            } else {
                Seq::<ErrorView>::empty()
            },
    {
        if call.constructs_effectful_instance && !self.in_context_effects_allowed() {
            let fp = self.full_path();
            self.errs.push(CompileError::constructor_destructor_error(0, Location::Unknown, fp));
        } else {
            assert(self.es() =~= old(self).es() + Seq::<ErrorView>::empty());
        }
    }

    /// Checks a definition.
    fn check_def(&mut self, def: &Def)
        requires
            old(self).bs().len() >= 1,
            def_errs(old(self).ps(), old(self).bs(), *def) is Some,
        ensures
            final(self).path_stack@ == old(self).path_stack@,
            final(self).block_stack@ == old(self).block_stack@,
            final(self).es() == old(self).es() + def_errs(old(self).ps(), old(self).bs(), *def)->Some_0,
        decreases def,
    {
        let ghost ps = self.ps();
        let ghost bs = self.bs();
        let ghost e0 = self.es();
        let is_procedural = def.sig.is_procedural();
        let is_subr = def.sig.is_subr();
        let is_const = def.sig.is_const();
        if is_subr {
            let name = def.sig.inspect().clone();
            self.push_path(Visibility::new(def.sig.is_public(), name));
        }
        let ghost ps2 = self.ps();
        let kind = match (is_procedural, is_subr, is_const) {
            (true, true, true) => {
                proof {
                    assert(false);
                }
                BlockKind::Proc
            },
            (true, true, false) => BlockKind::Proc,
            (_, false, false) => BlockKind::Instant,
            (false, true, true) => BlockKind::ConstFunc,
            (false, true, false) => BlockKind::Func,
            (_, false, true) => BlockKind::ConstInstant,
        };
        self.block_stack.push(kind);
        let ghost bs2 = self.bs();
        assert(bs2 == bs.push(kind));
        match &def.sig {
            Signature::Subr(sig) => {
                self.check_params(&sig.params);
            },
            _ => {
                assert(self.es() == e0 + Seq::<ErrorView>::empty());
            },
        }
        let ghost e1 = self.es();
        assert(decreases_to!(*def => def.body));
        assert(decreases_to!(def.body => def.body.block));
        assert(decreases_to!(def.body.block => def.body.block.0));
        self.check_exprs(&def.body.block.0);
        let ghost e2 = self.es();
        let n = def.body.block.0.len();
        let mut pushed = false;
        if n > 0 && kind == BlockKind::Instant && !is_procedural {
            let t = def.body.block.0[n - 1].t();
            if t.is_procedure {
                let fp = self.full_path();
                self.errs.push(CompileError::proc_assign_error(0, Location::Unknown, fp));
                pushed = true;
            }
        }
        if !pushed {
            assert(self.es() == e2 + Seq::<ErrorView>::empty());
        }
        if is_subr {
            self.pop_path();
        }
        let _ = self.block_stack.pop();
        assert(self.path_stack@ =~= old(self).path_stack@);
        assert(self.es() =~= old(self).es() + def_errs(ps, bs, *def)->Some_0);
    }

    fn check_call(&mut self, call: &Call)
        requires
            old(self).bs().len() >= 1,
            expr_errs(old(self).ps(), old(self).bs(), Expr::Call(*call)) is Some,
        ensures
            final(self).path_stack@ == old(self).path_stack@,
            final(self).block_stack@ == old(self).block_stack@,
            final(self).es() == old(self).es() + expr_errs(old(self).ps(), old(self).bs(), Expr::Call(*call))->Some_0,
        decreases call,
    {
        let ghost ps = self.ps();
        let ghost bs = self.bs();
        let ghost e0 = self.es();
        self.constructor_destructor_check(call);
        let ghost e1 = self.es();
        self.check_expr(&*call.obj);
        let ghost e2 = self.es();
        let allowed = self.in_context_effects_allowed();
        let attr_proc = match &call.attr_name {
            Some(name) => name.is_procedural(),
            None => false,
        };
        let obj_t = call.obj.t();
        if (obj_t.is_procedure || attr_proc) && !allowed {
            let fp = self.full_path();
            self.errs.push(CompileError::has_effect(0, Location::Unknown, fp));
        } else {
            assert(self.es() =~= e2 + Seq::<ErrorView>::empty());
        }
        let ghost e3 = self.es();
        self.check_pos_args(&call.args.pos_args);
        let ghost e4 = self.es();
        self.check_kw_args(&call.args.kw_args);
        assert(self.es() =~= e0 + expr_errs(ps, bs, Expr::Call(*call))->Some_0);
    }

    fn check_lambda(&mut self, lambda: &crate::hir::Lambda)
        requires
            old(self).bs().len() >= 1,
            expr_errs(old(self).ps(), old(self).bs(), Expr::Lambda(*lambda)) is Some,
        ensures
            final(self).path_stack@ == old(self).path_stack@,
            final(self).block_stack@ == old(self).block_stack@,
            final(self).es() == old(self).es() + expr_errs(old(self).ps(), old(self).bs(), Expr::Lambda(*lambda))->Some_0,
        decreases lambda,
    {
        let ghost ps = self.ps();
        let ghost bs = self.bs();
        let ghost e0 = self.es();
        let is_proc = lambda.is_procedural();
        if is_proc {
            self.push_path(Visibility::private(String::from_str("<lambda!>")));
            self.block_stack.push(BlockKind::Proc);
        } else {
            self.push_path(Visibility::private(String::from_str("<lambda>")));
            self.block_stack.push(BlockKind::Func);
        }
        self.check_params(&lambda.params);
        let ghost e1 = self.es();
        self.check_exprs(&lambda.body.0);
        self.pop_path();
        let _ = self.block_stack.pop();
        assert(self.path_stack@ =~= old(self).path_stack@);
        assert(self.block_stack@ =~= old(self).block_stack@);
        assert(self.es() =~= e0 + expr_errs(ps, bs, Expr::Lambda(*lambda))->Some_0);
    }

    fn check_binop(&mut self, bin: &crate::hir::BinOp)
        requires
            old(self).bs().len() >= 1,
            expr_errs(old(self).ps(), old(self).bs(), Expr::BinOp(*bin)) is Some,
        ensures
            final(self).path_stack@ == old(self).path_stack@,
            final(self).block_stack@ == old(self).block_stack@,
            final(self).es() == old(self).es() + expr_errs(old(self).ps(), old(self).bs(), Expr::BinOp(*bin))->Some_0,
        decreases bin,
    {
        let ghost ps = self.ps();
        let ghost bs = self.bs();
        let ghost e0 = self.es();
        self.check_expr(&*bin.lhs);
        let ghost e1 = self.es();
        self.check_expr(&*bin.rhs);
        let ghost e2 = self.es();
        if (bin.op.kind == TokenKind::IsOp || bin.op.kind == TokenKind::IsNotOp)
            && !self.in_context_effects_allowed() {
            let fp = self.full_path();
            self.errs.push(CompileError::has_effect(0, Location::Unknown, fp));
        } else {
            assert(self.es() =~= e2 + Seq::<ErrorView>::empty());
        }
        assert(self.es() =~= e0 + expr_errs(ps, bs, Expr::BinOp(*bin))->Some_0);
    }

    fn check_accessor(&mut self, expr: &Expr)
        requires
            old(self).bs().len() >= 1,
            expr is Accessor,
        ensures
            final(self).path_stack@ == old(self).path_stack@,
            final(self).block_stack@ == old(self).block_stack@,
            final(self).es() == old(self).es() + expr_errs(old(self).ps(), old(self).bs(), *expr)->Some_0,
    {
        let ghost e0 = self.es();
        match expr {
            Expr::Accessor(acc) => {
                let allowed = self.in_context_effects_allowed();
                let vi = acc.var_info();
                let root_not_ref = match acc.root_obj() {
                    Some(obj) => !obj.t().is_ref,
                    None => true,
                };
                let mut pushed = false;
                if !allowed && !vi.is_parameter && vi.t.is_mut_type && root_not_ref {
                    let fp = self.full_path();
                    if !crate::strutil::str_eq(vi.def_namespace.as_str(), fp.as_str()) {
                        self.errs.push(CompileError::touch_mut_error(0, Location::Unknown, expr, fp));
                        pushed = true;
                    }
                }
                if !pushed {
                    assert(self.es() =~= e0 + Seq::<ErrorView>::empty());
                }
            },
            _ => {},
        }
    }

    fn check_record(&mut self, record: &crate::hir::Record)
        requires
            old(self).bs().len() >= 1,
            expr_errs(old(self).ps(), old(self).bs(), Expr::Record(*record)) is Some,
        ensures
            final(self).path_stack@ == old(self).path_stack@,
            final(self).block_stack@ == old(self).block_stack@,
            final(self).es() == old(self).es() + expr_errs(old(self).ps(), old(self).bs(), Expr::Record(*record))->Some_0,
        decreases record,
    {
        self.push_path(Visibility::private(String::from_str("<record>")));
        self.block_stack.push(BlockKind::Instant);
        self.check_attrs(&record.attrs.0);
        self.pop_path();
        let _ = self.block_stack.pop();
        assert(self.path_stack@ =~= old(self).path_stack@);
        assert(self.block_stack@ =~= old(self).block_stack@);
    }

    fn check_class_def(&mut self, class_def: &crate::hir::ClassDef)
        requires
            old(self).bs().len() >= 1,
            expr_errs(old(self).ps(), old(self).bs(), Expr::ClassDef(*class_def)) is Some,
        ensures
            final(self).path_stack@ == old(self).path_stack@,
            final(self).block_stack@ == old(self).block_stack@,
            final(self).es() == old(self).es() + expr_errs(old(self).ps(), old(self).bs(), Expr::ClassDef(*class_def))->Some_0,
        decreases class_def,
    {
        let ghost ps = self.ps();
        let ghost bs = self.bs();
        let ghost e0 = self.es();
        match &class_def.require_or_sup {
            Some(req) => {
                self.check_expr(&**req);
            },
            None => {
                assert(self.es() =~= e0 + Seq::<ErrorView>::empty());
            },
        }
        let ghost e1 = self.es();
        self.check_bodies(&class_def.methods_list);
        assert(self.es() =~= e0 + expr_errs(ps, bs, Expr::ClassDef(*class_def))->Some_0);
    }

    fn check_list(&mut self, list: &List)
        requires
            old(self).bs().len() >= 1,
            expr_errs(old(self).ps(), old(self).bs(), Expr::List(*list)) is Some,
        ensures
            final(self).path_stack@ == old(self).path_stack@,
            final(self).block_stack@ == old(self).block_stack@,
            final(self).es() == old(self).es() + expr_errs(old(self).ps(), old(self).bs(), Expr::List(*list))->Some_0,
        decreases list,
    {
        let ghost ps = self.ps();
        let ghost bs = self.bs();
        let ghost e0 = self.es();
        match list {
            List::Normal(lis) => {
                self.check_pos_args(&lis.elems.pos_args);
            },
            List::WithLength(lis) => {
                self.check_expr(&*lis.elem);
                let ghost e1 = self.es();
                match &lis.len {
                    Some(len) => {
                        self.check_expr(&**len);
                    },
                    None => {
                        assert(self.es() =~= e1 + Seq::<ErrorView>::empty());
                    },
                }
                assert(self.es() =~= e0 + expr_errs(ps, bs, Expr::List(*list))->Some_0);
            },
            List::Comprehension(lis) => {
                self.check_expr(&*lis.elem);
                let ghost e1 = self.es();
                self.check_expr(&*lis.guard);
                assert(self.es() =~= e0 + expr_errs(ps, bs, Expr::List(*list))->Some_0);
            },
        }
    }

    fn check_set(&mut self, set: &SetLit)
        requires
            old(self).bs().len() >= 1,
            expr_errs(old(self).ps(), old(self).bs(), Expr::SetLit(*set)) is Some,
        ensures
            final(self).path_stack@ == old(self).path_stack@,
            final(self).block_stack@ == old(self).block_stack@,
            final(self).es() == old(self).es() + expr_errs(old(self).ps(), old(self).bs(), Expr::SetLit(*set))->Some_0,
        decreases set,
    {
        let ghost ps = self.ps();
        let ghost bs = self.bs();
        let ghost e0 = self.es();
        match set {
            SetLit::Normal(st) => {
                self.check_pos_args(&st.elems.pos_args);
            },
            SetLit::WithLength(st) => {
                self.check_expr(&*st.elem);
                let ghost e1 = self.es();
                self.check_expr(&*st.len);
                assert(self.es() =~= e0 + expr_errs(ps, bs, Expr::SetLit(*set))->Some_0);
            },
        }
    }

    fn check_patch_def(&mut self, patch_def: &crate::hir::PatchDef)
        requires
            old(self).bs().len() >= 1,
            expr_errs(old(self).ps(), old(self).bs(), Expr::PatchDef(*patch_def)) is Some,
        ensures
            final(self).path_stack@ == old(self).path_stack@,
            final(self).block_stack@ == old(self).block_stack@,
            final(self).es() == old(self).es() + expr_errs(old(self).ps(), old(self).bs(), Expr::PatchDef(*patch_def))->Some_0,
        decreases patch_def,
    {
        let ghost ps = self.ps();
        let ghost bs = self.bs();
        let ghost e0 = self.es();
        self.check_expr(&*patch_def.base);
        let ghost e1 = self.es();
        self.check_exprs(&patch_def.methods.0);
        assert(self.es() =~= e0 + expr_errs(ps, bs, Expr::PatchDef(*patch_def))->Some_0);
    }

    /// Checks an expression for side effects and purity violations.
    fn check_expr(&mut self, expr: &Expr)
        requires
            old(self).bs().len() >= 1,
            expr_errs(old(self).ps(), old(self).bs(), *expr) is Some,
        ensures
            final(self).path_stack@ == old(self).path_stack@,
            final(self).block_stack@ == old(self).block_stack@,
            final(self).es() == old(self).es() + expr_errs(old(self).ps(), old(self).bs(), *expr)->Some_0,
        decreases expr,
    {
        let ghost e0 = self.es();
        match expr {
            Expr::Def(def) => self.check_def(def),
            Expr::ClassDef(class_def) => self.check_class_def(class_def),
            Expr::PatchDef(patch_def) => self.check_patch_def(patch_def),
            Expr::List(list) => self.check_list(list),
            Expr::Tuple(Tuple::Normal(tup)) => self.check_pos_args(&tup.elems.pos_args),
            Expr::Record(record) => self.check_record(record),
            Expr::SetLit(set) => self.check_set(set),
            Expr::Dict(Dict::Normal(dic)) => self.check_kvs(&dic.kvs),
            Expr::Call(call) => self.check_call(call),
            Expr::UnaryOp(unary) => self.check_expr(&*unary.expr),
            Expr::BinOp(bin) => self.check_binop(bin),
            Expr::Lambda(lambda) => self.check_lambda(lambda),
            Expr::TypeAsc(type_asc) => self.check_expr(&*type_asc.expr),
            Expr::Accessor(_) => self.check_accessor(expr),
            Expr::Literal(_) | Expr::ReDef(_) | Expr::Code(_) | Expr::Compound(_) | Expr::Import(_)
            | Expr::Dummy(_) => {
                assert(self.es() =~= e0 + Seq::<ErrorView>::empty());
            },
        }
    }
}

/// The errors found when checking the top-level expression `e`: at the top
/// level side effects are allowed, so only purity violations inside are
/// reported; a class body is checked in the namespace of the class, and the
/// parameters of a top-level lambda are not checked.
pub open spec fn toplevel_errs(ps: Seq<(bool, Seq<char>)>, bs: Seq<BlockKind>, e: Expr) -> Option<
    Seq<ErrorView>,
> {
    match e {
        Expr::Def(d) => def_errs(ps, bs, d),
        Expr::ClassDef(cd) => opt_cat(
            match cd.require_or_sup {
                Some(r) => expr_errs(ps, bs, *r),
                None => Some(seq![]),
            },
            bodies_errs(
                ps.push((cd.sig.spec_is_public(), cd.sig.spec_ident().name@)),
                bs,
                cd.methods_list@,
            ),
        ),
        Expr::Call(c) => opt_cat(pos_errs(ps, bs, c.args.pos_args@), kw_errs(ps, bs, c.args.kw_args@)),
        Expr::BinOp(b) => opt_cat(expr_errs(ps, bs, *b.lhs), expr_errs(ps, bs, *b.rhs)),
        Expr::UnaryOp(u) => expr_errs(ps, bs, *u.expr),
        Expr::Lambda(l) => {
            let is_proc = l.op.kind == TokenKind::ProcArrow;
            let ps2 = ps.push(
                (
                    false,
                    if is_proc {
                        "<lambda!>"@
                    } else {
                        "<lambda>"@
                    },
                ),
            );
            let bs2 = bs.push(
                if is_proc {
                    BlockKind::Proc
                } else {
                    BlockKind::Func
                },
            );
            exprs_errs(ps2, bs2, l.body.0@)
        },
        Expr::PatchDef(_) | Expr::List(_) | Expr::Tuple(_) | Expr::Record(_) | Expr::SetLit(_)
        | Expr::Dict(_) | Expr::TypeAsc(_) => expr_errs(ps, bs, e),
        _ => Some(seq![]),
    }
}

pub open spec fn toplevels_errs(ps: Seq<(bool, Seq<char>)>, bs: Seq<BlockKind>, s: Seq<Expr>) -> Option<
    Seq<ErrorView>,
>
    decreases s.len(),
{
    if s.len() == 0 {
        Some(seq![])
    } else {
        opt_cat(toplevel_errs(ps, bs, s[0]), toplevels_errs(ps, bs, s.skip(1)))
    }
}

/// The errors of a module checked in the namespace `namespace`, given the
/// namespaces `ps` and blocks `bs` the checker already holds.
pub open spec fn module_errs(
    ps: Seq<(bool, Seq<char>)>,
    bs: Seq<BlockKind>,
    namespace: Seq<char>,
    module: Seq<Expr>,
) -> Option<Seq<ErrorView>> {
    toplevels_errs(ps.push((false, namespace)), bs.push(BlockKind::Module), module)
}

/// `a || b` where either operand may stop the evaluation (`None`); `b` is
/// only evaluated when `a` is false.
pub open spec fn or_opt(a: Option<bool>, b: Option<bool>) -> Option<bool> {
    match a {
        None => None,
        Some(true) => Some(true),
        Some(false) => b,
    }
}

/// Whether evaluating `e` may have a side effect: it calls a procedure, or
/// defines or contains a procedural definition or lambda; `None` where the
/// check is not implemented (comprehensions).
pub open spec fn impure_of(e: Expr) -> Option<bool>
    decreases e,
{
    match e {
        Expr::Call(c) => if c.t.is_procedure {
            Some(true)
        } else {
            or_opt(
                any_impure_pos(c.args.pos_args@),
                or_opt(
                    match c.args.var_args {
                        Some(v) => impure_of(v.expr),
                        None => Some(false),
                    },
                    any_impure_kw(c.args.kw_args@),
                ),
            )
        },
        Expr::BinOp(b) => or_opt(impure_of(*b.lhs), impure_of(*b.rhs)),
        Expr::UnaryOp(u) => impure_of(*u.expr),
        Expr::List(l) => match l {
            List::Normal(n) => any_impure_pos(n.elems.pos_args@),
            List::WithLength(w) => or_opt(
                impure_of(*w.elem),
                match w.len {
                    Some(len) => impure_of(*len),
                    None => Some(false),
                },
            ),
            List::Comprehension(_) => None,
        },
        Expr::Tuple(Tuple::Normal(t)) => any_impure_pos(t.elems.pos_args@),
        Expr::SetLit(st) => match st {
            SetLit::Normal(n) => any_impure_pos(n.elems.pos_args@),
            SetLit::WithLength(w) => or_opt(impure_of(*w.elem), impure_of(*w.len)),
        },
        Expr::Dict(Dict::Normal(d)) => any_impure_kv(d.kvs@),
        Expr::Lambda(l) => if is_procedural_name(l.op.content@) {
            Some(true)
        } else {
            any_impure(l.body.0@)
        },
        Expr::Def(d) => if d.sig.spec_is_procedural() {
            Some(true)
        } else {
            any_impure(d.body.block.0@)
        },
        Expr::Code(b) => any_impure(b.0@),
        Expr::Compound(b) => any_impure(b.0@),
        _ => Some(false),
    }
}

pub open spec fn any_impure(s: Seq<Expr>) -> Option<bool>
    decreases s,
{
    if s.len() == 0 {
        Some(false)
    } else {
        or_opt(impure_of(s[0]), any_impure(s.skip(1)))
    }
}

pub open spec fn any_impure_pos(s: Seq<PosArg>) -> Option<bool>
    decreases s,
{
    if s.len() == 0 {
        Some(false)
    } else {
        or_opt(impure_of(s[0].expr), any_impure_pos(s.skip(1)))
    }
}

pub open spec fn any_impure_kw(s: Seq<KwArg>) -> Option<bool>
    decreases s,
{
    if s.len() == 0 {
        Some(false)
    } else {
        or_opt(impure_of(s[0].expr), any_impure_kw(s.skip(1)))
    }
}

pub open spec fn any_impure_kv(s: Seq<KeyValue>) -> Option<bool>
    decreases s,
{
    if s.len() == 0 {
        Some(false)
    } else {
        or_opt(or_opt(impure_of(s[0].key), impure_of(s[0].value)), any_impure_kv(s.skip(1)))
    }
}

impl SideEffectChecker {

    fn any_impure_exprs(s: &Vec<Expr>) -> (b: bool)
        requires
            any_impure(s@) is Some,
        ensures
            b == any_impure(s@)->Some_0,
        decreases s,
    {
        let mut i: usize = 0;
        assert(s@.skip(0) == s@);
        while i < s.len()
            invariant
                i <= s@.len(),
                any_impure(s@) is Some,
                any_impure(s@) == any_impure(s@.skip(i as int)),
            decreases s.len() - i,
        {
            let ghost rest = s@.skip(i as int);
            assert(rest.skip(1) == s@.skip(i as int + 1));
            assert(rest[0] == s@[i as int]);
            assert(decreases_to!(*s => s@));
            assert(decreases_to!(s@ => s@[i as int]));
            if Self::is_impure(&s[i]) {
                return true;
            }
            i += 1;
        }
        assert(s@.skip(i as int).len() == 0);
        false
    }

    fn any_impure_pos_args(s: &Vec<PosArg>) -> (b: bool)
        requires
            any_impure_pos(s@) is Some,
        ensures
            b == any_impure_pos(s@)->Some_0,
        decreases s,
    {
        let mut i: usize = 0;
        assert(s@.skip(0) == s@);
        while i < s.len()
            invariant
                i <= s@.len(),
                any_impure_pos(s@) is Some,
                any_impure_pos(s@) == any_impure_pos(s@.skip(i as int)),
            decreases s.len() - i,
        {
            let ghost rest = s@.skip(i as int);
            assert(rest.skip(1) == s@.skip(i as int + 1));
            assert(rest[0] == s@[i as int]);
            assert(decreases_to!(*s => s@));
            assert(decreases_to!(s@ => s@[i as int]));
            assert(decreases_to!(s@[i as int] => s@[i as int].expr));
            if Self::is_impure(&s[i].expr) {
                return true;
            }
            i += 1;
        }
        assert(s@.skip(i as int).len() == 0);
        false
    }

    fn any_impure_kw_args(s: &Vec<KwArg>) -> (b: bool)
        requires
            any_impure_kw(s@) is Some,
        ensures
            b == any_impure_kw(s@)->Some_0,
        decreases s,
    {
        let mut i: usize = 0;
        assert(s@.skip(0) == s@);
        while i < s.len()
            invariant
                i <= s@.len(),
                any_impure_kw(s@) is Some,
                any_impure_kw(s@) == any_impure_kw(s@.skip(i as int)),
            decreases s.len() - i,
        {
            let ghost rest = s@.skip(i as int);
            assert(rest.skip(1) == s@.skip(i as int + 1));
            assert(rest[0] == s@[i as int]);
            assert(decreases_to!(*s => s@));
            assert(decreases_to!(s@ => s@[i as int]));
            assert(decreases_to!(s@[i as int] => s@[i as int].expr));
            if Self::is_impure(&s[i].expr) {
                return true;
            }
            i += 1;
        }
        assert(s@.skip(i as int).len() == 0);
        false
    }

    fn any_impure_kvs(s: &Vec<KeyValue>) -> (b: bool)
        requires
            any_impure_kv(s@) is Some,
        ensures
            b == any_impure_kv(s@)->Some_0,
        decreases s,
    {
        let mut i: usize = 0;
        assert(s@.skip(0) == s@);
        while i < s.len()
            invariant
                i <= s@.len(),
                any_impure_kv(s@) is Some,
                any_impure_kv(s@) == any_impure_kv(s@.skip(i as int)),
            decreases s.len() - i,
        {
            let ghost rest = s@.skip(i as int);
            assert(rest.skip(1) == s@.skip(i as int + 1));
            assert(rest[0] == s@[i as int]);
            assert(decreases_to!(*s => s@));
            assert(decreases_to!(s@ => s@[i as int]));
            assert(decreases_to!(s@[i as int] => s@[i as int].key));
            assert(decreases_to!(s@[i as int] => s@[i as int].value));
            if Self::is_impure(&s[i].key) || Self::is_impure(&s[i].value) {
                return true;
            }
            i += 1;
        }
        assert(s@.skip(i as int).len() == 0);
        false
    }

    /// Whether evaluating `expr` may have a side effect.
    pub fn is_impure(expr: &Expr) -> (b: bool)
        requires
            impure_of(*expr) is Some,
        ensures
            b == impure_of(*expr)->Some_0,
        decreases expr,
    {
        match expr {
            Expr::Call(call) => {
                call.t.is_procedure || Self::any_impure_pos_args(&call.args.pos_args) || match &call.args.var_args {
                    Some(v) => Self::is_impure(&v.expr),
                    None => false,
                } || Self::any_impure_kw_args(&call.args.kw_args)
            },
            Expr::BinOp(bin) => Self::is_impure(&*bin.lhs) || Self::is_impure(&*bin.rhs),
            Expr::UnaryOp(unary) => Self::is_impure(&*unary.expr),
            Expr::List(list) => match list {
                List::Normal(lis) => Self::any_impure_pos_args(&lis.elems.pos_args),
                List::WithLength(lis) => Self::is_impure(&*lis.elem) || match &lis.len {
                    Some(len) => Self::is_impure(&**len),
                    None => false,
                },
                List::Comprehension(_) => false,
            },
            Expr::Tuple(Tuple::Normal(tup)) => Self::any_impure_pos_args(&tup.elems.pos_args),
            Expr::SetLit(set) => match set {
                SetLit::Normal(st) => Self::any_impure_pos_args(&st.elems.pos_args),
                SetLit::WithLength(st) => Self::is_impure(&*st.elem) || Self::is_impure(&*st.len),
            },
            Expr::Dict(Dict::Normal(dic)) => Self::any_impure_kvs(&dic.kvs),
            Expr::Lambda(lambda) => lambda.op.is_procedural() || Self::any_impure_exprs(&lambda.body.0),
            Expr::Def(def) => def.sig.is_procedural() || Self::any_impure_exprs(&def.body.block.0),
            Expr::Code(block) | Expr::Compound(block) => Self::any_impure_exprs(&block.0),
            _ => false,
        }
    }

    /// Whether evaluating `expr` has no side effect.
    pub fn is_pure(expr: &Expr) -> (b: bool)
        requires
            impure_of(*expr) is Some,
        ensures
            b == !impure_of(*expr)->Some_0,
    {
        !Self::is_impure(expr)
    }

    fn check_toplevel_class(&mut self, class_def: &crate::hir::ClassDef)
        requires
            old(self).bs().len() >= 1,
            toplevel_errs(old(self).ps(), old(self).bs(), Expr::ClassDef(*class_def)) is Some,
        ensures
            final(self).path_stack@ == old(self).path_stack@,
            final(self).block_stack@ == old(self).block_stack@,
            final(self).es() == old(self).es() + toplevel_errs(old(self).ps(), old(self).bs(), Expr::ClassDef(*class_def))->Some_0,
    {
        let ghost ps = self.ps();
        let ghost bs = self.bs();
        let ghost e0 = self.es();
        match &class_def.require_or_sup {
            Some(req) => {
                self.check_expr(&**req);
            },
            None => {
                assert(self.es() =~= e0 + Seq::<ErrorView>::empty());
            },
        }
        let ghost e1 = self.es();
        let name = class_def.sig.inspect().clone();
        self.push_path(Visibility::new(class_def.sig.is_public(), name));
        self.check_bodies(&class_def.methods_list);
        self.pop_path();
        assert(self.path_stack@ =~= old(self).path_stack@);
        assert(self.es() =~= e0 + toplevel_errs(ps, bs, Expr::ClassDef(*class_def))->Some_0);
    }

    fn check_toplevel_lambda(&mut self, lambda: &crate::hir::Lambda)
        requires
            old(self).bs().len() >= 1,
            toplevel_errs(old(self).ps(), old(self).bs(), Expr::Lambda(*lambda)) is Some,
        ensures
            final(self).path_stack@ == old(self).path_stack@,
            final(self).block_stack@ == old(self).block_stack@,
            final(self).es() == old(self).es() + toplevel_errs(old(self).ps(), old(self).bs(), Expr::Lambda(*lambda))->Some_0,
    {
        let is_proc = lambda.is_procedural();
        if is_proc {
            self.push_path(Visibility::private(String::from_str("<lambda!>")));
            self.block_stack.push(BlockKind::Proc);
        } else {
            self.push_path(Visibility::private(String::from_str("<lambda>")));
            self.block_stack.push(BlockKind::Func);
        }
        self.check_exprs(&lambda.body.0);
        self.pop_path();
        let _ = self.block_stack.pop();
        assert(self.path_stack@ =~= old(self).path_stack@);
        assert(self.block_stack@ =~= old(self).block_stack@);
    }

    /// Checks a top-level expression.
    fn check_toplevel(&mut self, expr: &Expr)
        requires
            old(self).bs().len() >= 1,
            toplevel_errs(old(self).ps(), old(self).bs(), *expr) is Some,
        ensures
            final(self).path_stack@ == old(self).path_stack@,
            final(self).block_stack@ == old(self).block_stack@,
            final(self).es() == old(self).es() + toplevel_errs(old(self).ps(), old(self).bs(), *expr)->Some_0,
    {
        let ghost ps = self.ps();
        let ghost bs = self.bs();
        let ghost e0 = self.es();
        match expr {
            Expr::Def(def) => self.check_def(def),
            Expr::ClassDef(class_def) => self.check_toplevel_class(class_def),
            Expr::Call(call) => {
                self.check_pos_args(&call.args.pos_args);
                let ghost e1 = self.es();
                self.check_kw_args(&call.args.kw_args);
                assert(self.es() =~= e0 + toplevel_errs(ps, bs, *expr)->Some_0);
            },
            Expr::BinOp(bin) => {
                self.check_expr(&*bin.lhs);
                let ghost e1 = self.es();
                self.check_expr(&*bin.rhs);
                assert(self.es() =~= e0 + toplevel_errs(ps, bs, *expr)->Some_0);
            },
            Expr::UnaryOp(unary) => self.check_expr(&*unary.expr),
            Expr::Lambda(lambda) => self.check_toplevel_lambda(lambda),
            Expr::PatchDef(_) | Expr::List(_) | Expr::Tuple(_) | Expr::Record(_) | Expr::SetLit(_)
            | Expr::Dict(_) | Expr::TypeAsc(_) => self.check_expr(expr),
            _ => {
                assert(self.es() =~= e0 + Seq::<ErrorView>::empty());
            },
        }
    }

    /// Checks a module in the namespace `namespace`; the module is handed
    /// back, with the errors found if there are any.
    pub fn check(self, hir: HIR, namespace: &str) -> (r: Result<HIR, (HIR, CompileErrors)>)
        requires
            module_errs(self.ps(), self.bs(), namespace@, hir.module.0@) is Some,
        ensures
            ({
                let total = self.es() + module_errs(self.ps(), self.bs(), namespace@, hir.module.0@)->Some_0;
                match r {
                    Ok(h) => h == hir && total.len() == 0,
                    Err((h, errs)) => h == hir && errs@ == total && total.len() > 0,
                }
            }),
    {
        let mut this = self;
        this.push_path(Visibility::private(String::from_str(namespace)));
        this.block_stack.push(BlockKind::Module);
        let ghost ps = this.ps();
        let ghost bs = this.bs();
        let ghost start = this.es();
        let s = &hir.module.0;
        let ghost total = toplevels_errs(ps, bs, s@)->Some_0;
        let mut i: usize = 0;
        assert(s@.skip(0) == s@);
        while i < s.len()
            invariant
                i <= s@.len(),
                ps == this.ps(),
                bs == this.bs(),
                bs.len() >= 1,
                toplevels_errs(ps, bs, s@.skip(i as int)) is Some,
                this.es() + toplevels_errs(ps, bs, s@.skip(i as int))->Some_0 == start + total,
            decreases s.len() - i,
        {
            let ghost rest = s@.skip(i as int);
            let ghost before = this.es();
            assert(rest.skip(1) == s@.skip(i as int + 1));
            assert(rest[0] == s@[i as int]);
            this.check_toplevel(&s[i]);
            let ghost after = this.es();
            let ghost r2 = toplevels_errs(ps, bs, s@.skip(i as int + 1))->Some_0;
            assert(after + r2 =~= before + toplevels_errs(ps, bs, rest)->Some_0);
            i += 1;
        }
        assert(s@.skip(i as int) =~= Seq::<Expr>::empty());
        assert(this.es() =~= start + total);
        if this.errs.is_empty() {
            Ok(hir)
        } else {
            Err((hir, this.errs))
        }
    }
}

/// The errors, if the check does not stop, are all side-effect errors.
pub open spec fn effects_only(o: Option<Seq<ErrorView>>) -> bool {
    o matches Some(s) ==> forall|i: int| 0 <= i < s.len() ==> (#[trigger] s[i]).kind
        == crate::error::ErrorKind::HasEffect
}

proof fn lemma_cat_effects(a: Option<Seq<ErrorView>>, b: Option<Seq<ErrorView>>)
    requires
        effects_only(a),
        effects_only(b),
    ensures
        effects_only(opt_cat(a, b)),
{
    if let (Some(x), Some(y)) = (a, b) {
        assert forall|i: int| 0 <= i < (x + y).len() implies (#[trigger] (x + y)[i]).kind
            == crate::error::ErrorKind::HasEffect by {
            if i < x.len() {
                assert((x + y)[i] == x[i]);
            } else {
                assert((x + y)[i] == y[i - x.len()]);
            }
        }
    }
}

proof fn lemma_param_effects(ps: Seq<(bool, Seq<char>)>, p: NonDefaultParamSignature)
    ensures
        effects_only(param_errs(ps, p)),
{
}

proof fn lemma_nd_params_effects(ps: Seq<(bool, Seq<char>)>, s: Seq<NonDefaultParamSignature>)
    ensures
        effects_only(nd_params_errs(ps, s)),
    decreases s.len(),
{
    if s.len() > 0 {
        lemma_param_effects(ps, s[0]);
        lemma_nd_params_effects(ps, s.skip(1));
        lemma_cat_effects(param_errs(ps, s[0]), nd_params_errs(ps, s.skip(1)));
    }
}

proof fn lemma_expr_effects(ps: Seq<(bool, Seq<char>)>, bs: Seq<BlockKind>, e: Expr)
    ensures
        effects_only(expr_errs(ps, bs, e)),
    decreases e,
{
    match e {
        Expr::Def(d) => lemma_def_effects(ps, bs, d),
        Expr::ClassDef(cd) => lemma_class_effects(ps, bs, cd),
        Expr::PatchDef(pd) => {
            lemma_expr_effects(ps, bs, *pd.base);
            lemma_exprs_effects(ps, bs, pd.methods.0@);
            lemma_cat_effects(expr_errs(ps, bs, *pd.base), exprs_errs(ps, bs, pd.methods.0@));
        },
        Expr::List(l) => lemma_list_effects(ps, bs, l),
        Expr::Tuple(Tuple::Normal(t)) => lemma_pos_effects(ps, bs, t.elems.pos_args@),
        Expr::Record(r) => lemma_attrs_effects(
            ps.push((false, "<record>"@)),
            bs.push(BlockKind::Instant),
            r.attrs.0@,
        ),
        Expr::SetLit(st) => lemma_set_effects(ps, bs, st),
        Expr::Dict(Dict::Normal(d)) => lemma_kv_effects(ps, bs, d.kvs@),
        Expr::Call(c) => lemma_call_effects(ps, bs, c),
        Expr::UnaryOp(u) => lemma_expr_effects(ps, bs, *u.expr),
        Expr::BinOp(b) => lemma_binop_effects(ps, bs, b),
        Expr::Lambda(l) => lemma_lambda_effects(ps, bs, l),
        Expr::TypeAsc(t) => lemma_expr_effects(ps, bs, *t.expr),
        _ => {},
    }
}

proof fn lemma_class_effects(ps: Seq<(bool, Seq<char>)>, bs: Seq<BlockKind>, cd: crate::hir::ClassDef)
    ensures
        effects_only(expr_errs(ps, bs, Expr::ClassDef(cd))),
    decreases cd,
{
    let r = match cd.require_or_sup {
        Some(r) => {
            lemma_expr_effects(ps, bs, *r);
            expr_errs(ps, bs, *r)
        },
        None => Some(seq![]),
    };
    lemma_bodies_effects(ps, bs, cd.methods_list@);
    lemma_cat_effects(r, bodies_errs(ps, bs, cd.methods_list@));
}

proof fn lemma_list_effects(ps: Seq<(bool, Seq<char>)>, bs: Seq<BlockKind>, l: List)
    ensures
        effects_only(expr_errs(ps, bs, Expr::List(l))),
    decreases l,
{
    match l {
        List::Normal(n) => lemma_pos_effects(ps, bs, n.elems.pos_args@),
        List::WithLength(w) => {
            lemma_expr_effects(ps, bs, *w.elem);
            let r = match w.len {
                Some(len) => {
                    lemma_expr_effects(ps, bs, *len);
                    expr_errs(ps, bs, *len)
                },
                None => Some(seq![]),
            };
            lemma_cat_effects(expr_errs(ps, bs, *w.elem), r);
        },
        List::Comprehension(c) => {
            lemma_expr_effects(ps, bs, *c.elem);
            lemma_expr_effects(ps, bs, *c.guard);
            lemma_cat_effects(expr_errs(ps, bs, *c.elem), expr_errs(ps, bs, *c.guard));
        },
    }
}

proof fn lemma_set_effects(ps: Seq<(bool, Seq<char>)>, bs: Seq<BlockKind>, st: SetLit)
    ensures
        effects_only(expr_errs(ps, bs, Expr::SetLit(st))),
    decreases st,
{
    match st {
        SetLit::Normal(n) => lemma_pos_effects(ps, bs, n.elems.pos_args@),
        SetLit::WithLength(w) => {
            lemma_expr_effects(ps, bs, *w.elem);
            lemma_expr_effects(ps, bs, *w.len);
            lemma_cat_effects(expr_errs(ps, bs, *w.elem), expr_errs(ps, bs, *w.len));
        },
    }
}

proof fn lemma_call_effects(ps: Seq<(bool, Seq<char>)>, bs: Seq<BlockKind>, c: Call)
    ensures
        effects_only(expr_errs(ps, bs, Expr::Call(c))),
    decreases c,
{
    let fp = full_path_of(ps);
    let allowed = effects_allowed(bs);

            let ctor = if c.constructs_effectful_instance && !allowed {
                seq![constructor_destructor_view(0, Location::Unknown, fp)]
            } else {
                seq![]
            };
            let effectful = t_of(*c.obj).is_procedure || (c.attr_name matches Some(n)
                && is_procedural_name(n.name@));
            let eff = if effectful && !allowed {
                seq![has_effect_view(0, Location::Unknown, fp)]
            } else {
                seq![]
            };
            lemma_expr_effects(ps, bs, *c.obj);
            lemma_pos_effects(ps, bs, c.args.pos_args@);
            lemma_kw_effects(ps, bs, c.args.kw_args@);
            let args = opt_cat(pos_errs(ps, bs, c.args.pos_args@), kw_errs(ps, bs, c.args.kw_args@));
            lemma_cat_effects(pos_errs(ps, bs, c.args.pos_args@), kw_errs(ps, bs, c.args.kw_args@));
            lemma_cat_effects(Some(eff), args);
            lemma_cat_effects(expr_errs(ps, bs, *c.obj), opt_cat(Some(eff), args));
            lemma_cat_effects(Some(ctor), opt_cat(expr_errs(ps, bs, *c.obj), opt_cat(Some(eff), args)));
        }

proof fn lemma_binop_effects(ps: Seq<(bool, Seq<char>)>, bs: Seq<BlockKind>, b: crate::hir::BinOp)
    ensures
        effects_only(expr_errs(ps, bs, Expr::BinOp(b))),
    decreases b,
{
    let fp = full_path_of(ps);
    let allowed = effects_allowed(bs);

            let eff = if (b.op.kind == TokenKind::IsOp || b.op.kind == TokenKind::IsNotOp)
                && !allowed {
                seq![has_effect_view(0, Location::Unknown, fp)]
            } else {
                seq![]
            };
            lemma_expr_effects(ps, bs, *b.lhs);
            lemma_expr_effects(ps, bs, *b.rhs);
            lemma_cat_effects(expr_errs(ps, bs, *b.rhs), Some(eff));
            lemma_cat_effects(expr_errs(ps, bs, *b.lhs), opt_cat(expr_errs(ps, bs, *b.rhs), Some(eff)));
        }

proof fn lemma_lambda_effects(ps: Seq<(bool, Seq<char>)>, bs: Seq<BlockKind>, l: crate::hir::Lambda)
    ensures
        effects_only(expr_errs(ps, bs, Expr::Lambda(l))),
    decreases l,
{

            let is_proc = l.op.kind == TokenKind::ProcArrow;
            let ps2 = ps.push(
                (
                    false,
                    if is_proc {
                        "<lambda!>"@
                    } else {
                        "<lambda>"@
                    },
                ),
            );
            let bs2 = bs.push(
                if is_proc {
                    BlockKind::Proc
                } else {
                    BlockKind::Func
                },
            );
            lemma_params_effects(ps2, bs2, l.params);
            lemma_exprs_effects(ps2, bs2, l.body.0@);
            lemma_cat_effects(params_errs(ps2, bs2, l.params), exprs_errs(ps2, bs2, l.body.0@));
        }

proof fn lemma_params_effects(ps: Seq<(bool, Seq<char>)>, bs: Seq<BlockKind>, p: Params)
    ensures
        effects_only(params_errs(ps, bs, p)),
    decreases p,
{
    lemma_nd_params_effects(ps, p.non_defaults@);
    match p.var_params {
        Some(b) => lemma_param_effects(ps, *b),
        None => {},
    }
    lemma_defaults_effects(ps, bs, p.defaults@);
    lemma_cat_effects(opt_param_errs(ps, p.var_params), defaults_errs(ps, bs, p.defaults@));
    lemma_cat_effects(
        nd_params_errs(ps, p.non_defaults@),
        opt_cat(opt_param_errs(ps, p.var_params), defaults_errs(ps, bs, p.defaults@)),
    );
}

proof fn lemma_defaults_effects(
    ps: Seq<(bool, Seq<char>)>,
    bs: Seq<BlockKind>,
    s: Seq<DefaultParamSignature>,
)
    ensures
        effects_only(defaults_errs(ps, bs, s)),
    decreases s,
{
    if s.len() > 0 {
        lemma_param_effects(ps, s[0].sig);
        lemma_expr_effects(ps, bs, s[0].default_val);
        lemma_cat_effects(param_errs(ps, s[0].sig), expr_errs(ps, bs, s[0].default_val));
        lemma_defaults_effects(ps, bs, s.skip(1));
        lemma_cat_effects(
            opt_cat(param_errs(ps, s[0].sig), expr_errs(ps, bs, s[0].default_val)),
            defaults_errs(ps, bs, s.skip(1)),
        );
    }
}

proof fn lemma_def_effects(ps: Seq<(bool, Seq<char>)>, bs: Seq<BlockKind>, d: Def)
    ensures
        effects_only(def_errs(ps, bs, d)),
    decreases d,
{
    let is_subr = d.sig is Subr;
    let ps2 = if is_subr {
        ps.push((d.sig.spec_is_public(), d.sig.spec_ident().name@))
    } else {
        ps
    };
    match def_block_kind(d.sig.spec_is_procedural(), is_subr, d.sig.spec_is_const()) {
        None => {},
        Some(k) => {
            let bs2 = bs.push(k);
            let params = match d.sig {
                Signature::Subr(s) => {
                    lemma_params_effects(ps2, bs2, s.params);
                    params_errs(ps2, bs2, s.params)
                },
                _ => Some(seq![]),
            };
            let body = d.body.block.0@;
            let last = if body.len() > 0 && k == BlockKind::Instant && !d.sig.spec_is_procedural()
                && t_of(body.last()).is_procedure {
                seq![proc_assign_view(0, Location::Unknown, full_path_of(ps2))]
            } else {
                seq![]
            };
            lemma_exprs_effects(ps2, bs2, body);
            lemma_cat_effects(exprs_errs(ps2, bs2, body), Some(last));
            lemma_cat_effects(params, opt_cat(exprs_errs(ps2, bs2, body), Some(last)));
        },
    }
}

proof fn lemma_exprs_effects(ps: Seq<(bool, Seq<char>)>, bs: Seq<BlockKind>, s: Seq<Expr>)
    ensures
        effects_only(exprs_errs(ps, bs, s)),
    decreases s,
{
    if s.len() > 0 {
        lemma_expr_effects(ps, bs, s[0]);
        lemma_exprs_effects(ps, bs, s.skip(1));
        lemma_cat_effects(expr_errs(ps, bs, s[0]), exprs_errs(ps, bs, s.skip(1)));
    }
}

proof fn lemma_pos_effects(ps: Seq<(bool, Seq<char>)>, bs: Seq<BlockKind>, s: Seq<PosArg>)
    ensures
        effects_only(pos_errs(ps, bs, s)),
    decreases s,
{
    if s.len() > 0 {
        lemma_expr_effects(ps, bs, s[0].expr);
        lemma_pos_effects(ps, bs, s.skip(1));
        lemma_cat_effects(expr_errs(ps, bs, s[0].expr), pos_errs(ps, bs, s.skip(1)));
    }
}

proof fn lemma_kw_effects(ps: Seq<(bool, Seq<char>)>, bs: Seq<BlockKind>, s: Seq<KwArg>)
    ensures
        effects_only(kw_errs(ps, bs, s)),
    decreases s,
{
    if s.len() > 0 {
        lemma_expr_effects(ps, bs, s[0].expr);
        lemma_kw_effects(ps, bs, s.skip(1));
        lemma_cat_effects(expr_errs(ps, bs, s[0].expr), kw_errs(ps, bs, s.skip(1)));
    }
}

proof fn lemma_kv_effects(ps: Seq<(bool, Seq<char>)>, bs: Seq<BlockKind>, s: Seq<KeyValue>)
    ensures
        effects_only(kv_errs(ps, bs, s)),
    decreases s,
{
    if s.len() > 0 {
        lemma_expr_effects(ps, bs, s[0].key);
        lemma_expr_effects(ps, bs, s[0].value);
        lemma_cat_effects(expr_errs(ps, bs, s[0].key), expr_errs(ps, bs, s[0].value));
        lemma_kv_effects(ps, bs, s.skip(1));
        lemma_cat_effects(
            opt_cat(expr_errs(ps, bs, s[0].key), expr_errs(ps, bs, s[0].value)),
            kv_errs(ps, bs, s.skip(1)),
        );
    }
}

proof fn lemma_attrs_effects(ps: Seq<(bool, Seq<char>)>, bs: Seq<BlockKind>, s: Seq<Def>)
    ensures
        effects_only(attrs_errs(ps, bs, s)),
    decreases s,
{
    if s.len() > 0 {
        lemma_def_effects(ps, bs, s[0]);
        lemma_attrs_effects(ps, bs, s.skip(1));
        lemma_cat_effects(def_errs(ps, bs, s[0]), attrs_errs(ps, bs, s.skip(1)));
    }
}

proof fn lemma_bodies_effects(ps: Seq<(bool, Seq<char>)>, bs: Seq<BlockKind>, s: Seq<Methods>)
    ensures
        effects_only(bodies_errs(ps, bs, s)),
    decreases s,
{
    if s.len() > 0 {
        lemma_exprs_effects(ps, bs, s[0].defs.0@);
        lemma_bodies_effects(ps, bs, s.skip(1));
        lemma_cat_effects(exprs_errs(ps, bs, s[0].defs.0@), bodies_errs(ps, bs, s.skip(1)));
    }
}

proof fn lemma_toplevel_effects(ps: Seq<(bool, Seq<char>)>, bs: Seq<BlockKind>, e: Expr)
    ensures
        effects_only(toplevel_errs(ps, bs, e)),
{
    match e {
        Expr::Def(d) => lemma_def_effects(ps, bs, d),
        Expr::ClassDef(cd) => {
            let r = match cd.require_or_sup {
                Some(r) => {
                    lemma_expr_effects(ps, bs, *r);
                    expr_errs(ps, bs, *r)
                },
                None => Some(seq![]),
            };
            let ps2 = ps.push((cd.sig.spec_is_public(), cd.sig.spec_ident().name@));
            lemma_bodies_effects(ps2, bs, cd.methods_list@);
            lemma_cat_effects(r, bodies_errs(ps2, bs, cd.methods_list@));
        },
        Expr::Call(c) => {
            lemma_pos_effects(ps, bs, c.args.pos_args@);
            lemma_kw_effects(ps, bs, c.args.kw_args@);
            lemma_cat_effects(pos_errs(ps, bs, c.args.pos_args@), kw_errs(ps, bs, c.args.kw_args@));
        },
        Expr::BinOp(b) => {
            lemma_expr_effects(ps, bs, *b.lhs);
            lemma_expr_effects(ps, bs, *b.rhs);
            lemma_cat_effects(expr_errs(ps, bs, *b.lhs), expr_errs(ps, bs, *b.rhs));
        },
        Expr::UnaryOp(u) => lemma_expr_effects(ps, bs, *u.expr),
        Expr::Lambda(l) => {
            let is_proc = l.op.kind == TokenKind::ProcArrow;
            let ps2 = ps.push(
                (
                    false,
                    if is_proc {
                        "<lambda!>"@
                    } else {
                        "<lambda>"@
                    },
                ),
            );
            let bs2 = bs.push(
                if is_proc {
                    BlockKind::Proc
                } else {
                    BlockKind::Func
                },
            );
            lemma_exprs_effects(ps2, bs2, l.body.0@);
        },
        _ => lemma_expr_effects(ps, bs, e),
    }
}

proof fn lemma_toplevels_effects(ps: Seq<(bool, Seq<char>)>, bs: Seq<BlockKind>, s: Seq<Expr>)
    ensures
        effects_only(toplevels_errs(ps, bs, s)),
    decreases s.len(),
{
    if s.len() > 0 {
        lemma_toplevel_effects(ps, bs, s[0]);
        lemma_toplevels_effects(ps, bs, s.skip(1));
        lemma_cat_effects(toplevel_errs(ps, bs, s[0]), toplevels_errs(ps, bs, s.skip(1)));
    }
}

/// Every diagnostic the side-effect checker reports on a module is a
/// side-effect error (`HasEffect`).
pub proof fn lemma_checker_reports_only_effects(
    ps: Seq<(bool, Seq<char>)>,
    bs: Seq<BlockKind>,
    namespace: Seq<char>,
    module: Seq<Expr>,
)
    requires
        module_errs(ps, bs, namespace, module) is Some,
    ensures
        forall|i: int|
            0 <= i < module_errs(ps, bs, namespace, module)->Some_0.len() ==> (
            #[trigger] module_errs(ps, bs, namespace, module)->Some_0[i]).kind
                == crate::error::ErrorKind::HasEffect,
{
    lemma_toplevels_effects(ps.push((false, namespace)), bs.push(BlockKind::Module), module);
}

proof fn lemma_cat_lens(a: Option<Seq<ErrorView>>, b: Option<Seq<ErrorView>>)
    requires
        opt_cat(a, b) is Some,
    ensures
        a is Some,
        b is Some,
        opt_cat(a, b)->Some_0.len() == a->Some_0.len() + b->Some_0.len(),
{
}

/// The errors of a sequence of expressions include those of each of them.
proof fn lemma_exprs_errs_include(ps: Seq<(bool, Seq<char>)>, bs: Seq<BlockKind>, s: Seq<Expr>, k: int)
    requires
        exprs_errs(ps, bs, s) is Some,
        0 <= k < s.len(),
    ensures
        expr_errs(ps, bs, s[k]) is Some,
        exprs_errs(ps, bs, s)->Some_0.len() >= expr_errs(ps, bs, s[k])->Some_0.len(),
    decreases k,
{
    lemma_cat_lens(expr_errs(ps, bs, s[0]), exprs_errs(ps, bs, s.skip(1)));
    if k > 0 {
        assert(s.skip(1)[k - 1] == s[k]);
        lemma_exprs_errs_include(ps, bs, s.skip(1), k - 1);
    }
}

/// A call of a procedure in the body of a function (a subroutine whose
/// name is neither procedural nor constant) is reported, wherever the
/// function is defined (`bs` holds at least the module's block).
pub proof fn lemma_procedure_call_in_function_reported(
    ps: Seq<(bool, Seq<char>)>,
    bs: Seq<BlockKind>,
    d: Def,
    k: int,
)
    requires
        bs.len() >= 1,
        d.sig is Subr,
        !d.sig.spec_is_procedural(),
        !d.sig.spec_is_const(),
        0 <= k < d.body.block.0@.len(),
        d.body.block.0@[k] matches Expr::Call(c) && t_of(*c.obj).is_procedure,
        def_errs(ps, bs, d) is Some,
    ensures
        def_errs(ps, bs, d)->Some_0.len() > 0,
{
    let ps2 = ps.push((d.sig.spec_is_public(), d.sig.spec_ident().name@));
    let bs2 = bs.push(BlockKind::Func);
    assert(def_block_kind(false, true, false) == Some(BlockKind::Func));
    assert(!effects_allowed(bs2));
    let body = d.body.block.0@;
    let params = match d.sig {
        Signature::Subr(s) => params_errs(ps2, bs2, s.params),
        _ => Some(seq![]),
    };
    // a function's block is no instant block, so nothing follows its body
    let last: Seq<ErrorView> = seq![];
    assert(def_errs(ps, bs, d) == opt_cat(params, opt_cat(exprs_errs(ps2, bs2, body), Some(last))));
    lemma_cat_lens(params, opt_cat(exprs_errs(ps2, bs2, body), Some(last)));
    lemma_cat_lens(exprs_errs(ps2, bs2, body), Some(last));
    lemma_exprs_errs_include(ps2, bs2, body, k);
    let e = body[k];
    if let Expr::Call(c) = e {
        let fp = full_path_of(ps2);
        let ctor = if c.constructs_effectful_instance && !effects_allowed(bs2) {
            seq![constructor_destructor_view(0, Location::Unknown, fp)]
        } else {
            seq![]
        };
        let eff = seq![has_effect_view(0, Location::Unknown, fp)];
        let args = opt_cat(pos_errs(ps2, bs2, c.args.pos_args@), kw_errs(ps2, bs2, c.args.kw_args@));
        assert(expr_errs(ps2, bs2, e) == opt_cat(
            Some(ctor),
            opt_cat(expr_errs(ps2, bs2, *c.obj), opt_cat(Some(eff), args)),
        ));
        lemma_cat_lens(Some(ctor), opt_cat(expr_errs(ps2, bs2, *c.obj), opt_cat(Some(eff), args)));
        lemma_cat_lens(expr_errs(ps2, bs2, *c.obj), opt_cat(Some(eff), args));
        lemma_cat_lens(Some(eff), args);
    }
}


/// Where side effects are allowed, for any enclosing blocks `bs`: at the top
/// level; in a procedure's block; in an instant block (a variable
/// definition's) directly inside a procedure, a module or another instant
/// block. They are not allowed in a function's or a constant instant block,
/// nor in an instant block directly inside a function, a constant function
/// or a constant instant block.
pub proof fn lemma_where_effects_are_allowed(bs: Seq<BlockKind>, outer: BlockKind, k: BlockKind)
    ensures
        effects_allowed(seq![k]),
        effects_allowed(bs.push(outer).push(BlockKind::Proc)),
        (outer == BlockKind::Proc || outer == BlockKind::Module || outer == BlockKind::Instant)
            ==> effects_allowed(bs.push(outer).push(BlockKind::Instant)),
        !effects_allowed(bs.push(outer).push(BlockKind::Func)),
        !effects_allowed(bs.push(outer).push(BlockKind::ConstInstant)),
        (outer == BlockKind::Func || outer == BlockKind::ConstFunc || outer == BlockKind::ConstInstant)
            ==> !effects_allowed(bs.push(outer).push(BlockKind::Instant)),
{
    let s1 = bs.push(outer).push(BlockKind::Proc);
    assert(s1[s1.len() - 2] == outer);
    let s2 = bs.push(outer).push(BlockKind::Instant);
    assert(s2[s2.len() - 2] == outer);
    let s3 = bs.push(outer).push(BlockKind::Func);
    assert(s3[s3.len() - 2] == outer);
    let s4 = bs.push(outer).push(BlockKind::ConstInstant);
    assert(s4[s4.len() - 2] == outer);
}


/// A procedure may bind the result of a procedure call to a variable: in
/// `p!() = (x = f!())`, where `f!` is called without arguments and does not
/// return a procedure, the body of `p!` raises nothing, so the definition
/// raises only what its parameters raise, wherever it stands.
pub proof fn lemma_procedure_call_in_variable_of_procedure_allowed(
    ps: Seq<(bool, Seq<char>)>,
    bs: Seq<BlockKind>,
    p: Def,
    v: Def,
    c: Call,
)
    requires
        p.sig is Subr,
        p.sig.spec_is_procedural(),
        !p.sig.spec_is_const(),
        p.body.block.0@ == seq![Expr::Def(v)],
        v.sig is Var,
        !v.sig.spec_is_const(),
        v.body.block.0@ == seq![Expr::Call(c)],
        *c.obj matches Expr::Accessor(Accessor::Ident(_)),
        t_of(*c.obj).is_procedure,
        !c.t@.is_procedure,
        c.args.pos_args@.len() == 0,
        c.args.kw_args@.len() == 0,
    ensures
        def_errs(ps, bs, p) == params_errs(
            ps.push((p.sig.spec_is_public(), p.sig.spec_ident().name@)),
            bs.push(BlockKind::Proc),
            p.sig->Subr_0.params,
        ),
{
    let ps2 = ps.push((p.sig.spec_is_public(), p.sig.spec_ident().name@));
    let bs2 = bs.push(BlockKind::Proc);
    let bs3 = bs2.push(BlockKind::Instant);
    assert(bs3[bs3.len() - 2] == BlockKind::Proc);
    assert(effects_allowed(bs3));
    let call = Expr::Call(c);
    let empty = Seq::<ErrorView>::empty();
    assert(expr_errs(ps2, bs3, *c.obj) == Some(empty));
    assert(pos_errs(ps2, bs3, c.args.pos_args@) == Some(empty));
    assert(kw_errs(ps2, bs3, c.args.kw_args@) == Some(empty));
    assert(expr_errs(ps2, bs3, call) == Some(empty + (empty + (empty + (empty + empty)))));
    assert(empty + (empty + (empty + (empty + empty))) =~= empty);
    assert(v.body.block.0@.skip(1) =~= Seq::<Expr>::empty());
    assert(exprs_errs(ps2, bs3, v.body.block.0@) == Some(empty + empty));
    assert(empty + empty =~= empty);
    assert(t_of(v.body.block.0@.last()) == c.t@);
    assert(def_errs(ps2, bs2, v) == Some(empty + (empty + empty)));
    assert(empty + (empty + empty) =~= empty);
    assert(p.body.block.0@.skip(1) =~= Seq::<Expr>::empty());
    assert(exprs_errs(ps2, bs2, p.body.block.0@) == Some(empty));
    let params = params_errs(ps2, bs2, p.sig->Subr_0.params);
    assert(def_errs(ps, bs, p) == opt_cat(params, opt_cat(Some(empty), Some(empty))));
    if let Some(x) = params {
        assert(x + (empty + empty) =~= x);
    }
}


/// Purity of operators and calls: a binary operation is impure exactly when
/// one of its operands is (once both operands can be judged, or the left
/// one already is impure); a unary operation is as pure as its operand; a
/// call of something that returns a procedure is impure.
pub proof fn lemma_operator_purity(b: crate::hir::BinOp, u: crate::hir::UnaryOp, c: Call)
    ensures
        impure_of(*b.lhs) == Some(true) ==> impure_of(Expr::BinOp(b)) == Some(true),
        impure_of(*b.lhs) is Some && impure_of(*b.rhs) == Some(true) ==> impure_of(Expr::BinOp(b))
            == Some(true),
        impure_of(*b.lhs) == Some(false) && impure_of(*b.rhs) == Some(false) ==> impure_of(
            Expr::BinOp(b),
        ) == Some(false),
        impure_of(Expr::UnaryOp(u)) == impure_of(*u.expr),
        c.t@.is_procedure ==> impure_of(Expr::Call(c)) == Some(true),
{
}


/// A sequence of expressions is pure when each is judged pure, and impure
/// as soon as one is impure after expressions that could all be judged.
pub proof fn lemma_sequence_purity(s: Seq<Expr>, i: int)
    ensures
        (forall|j: int| 0 <= j < s.len() ==> impure_of(#[trigger] s[j]) == Some(false)) ==> any_impure(s)
            == Some(false),
        (0 <= i < s.len() && impure_of(s[i]) == Some(true) && forall|j: int|
            0 <= j < i ==> impure_of(#[trigger] s[j]) is Some) ==> any_impure(s) == Some(true),
    decreases s.len(),
{
    if s.len() > 0 {
        let rest = s.skip(1);
        lemma_sequence_purity(rest, i - 1);
        if forall|j: int| 0 <= j < s.len() ==> impure_of(#[trigger] s[j]) == Some(false) {
            assert(impure_of(s[0]) == Some(false));
            assert forall|j: int| 0 <= j < rest.len() implies impure_of(#[trigger] rest[j]) == Some(false) by {
                assert(rest[j] == s[j + 1]);
            }
        }
        if 0 <= i < s.len() && impure_of(s[i]) == Some(true) && forall|j: int|
            0 <= j < i ==> impure_of(#[trigger] s[j]) is Some {
            if i > 0 {
                assert(impure_of(s[0]) is Some);
                assert(rest[i - 1] == s[i]);
                assert forall|j: int| 0 <= j < i - 1 implies impure_of(#[trigger] rest[j]) is Some by {
                    assert(rest[j] == s[j + 1]);
                }
            }
        }
    }
}

/// The same for positional arguments.
pub proof fn lemma_arguments_purity(s: Seq<PosArg>, i: int)
    ensures
        (forall|j: int| 0 <= j < s.len() ==> impure_of(#[trigger] s[j].expr) == Some(false))
            ==> any_impure_pos(s) == Some(false),
        (0 <= i < s.len() && impure_of(s[i].expr) == Some(true) && forall|j: int|
            0 <= j < i ==> impure_of(#[trigger] s[j].expr) is Some) ==> any_impure_pos(s) == Some(true),
    decreases s.len(),
{
    if s.len() > 0 {
        let rest = s.skip(1);
        lemma_arguments_purity(rest, i - 1);
        if forall|j: int| 0 <= j < s.len() ==> impure_of(#[trigger] s[j].expr) == Some(false) {
            assert(impure_of(s[0].expr) == Some(false));
            assert forall|j: int| 0 <= j < rest.len() implies impure_of(#[trigger] rest[j].expr) == Some(
                false,
            ) by {
                assert(rest[j] == s[j + 1]);
            }
        }
        if 0 <= i < s.len() && impure_of(s[i].expr) == Some(true) && forall|j: int|
            0 <= j < i ==> impure_of(#[trigger] s[j].expr) is Some {
            if i > 0 {
                assert(impure_of(s[0].expr) is Some);
                assert(rest[i - 1] == s[i]);
                assert forall|j: int| 0 <= j < i - 1 implies impure_of(#[trigger] rest[j].expr) is Some by {
                    assert(rest[j] == s[j + 1]);
                }
            }
        }
    }
}

/// A call with an impure positional argument, after arguments that could
/// all be judged, is impure.
pub proof fn lemma_call_with_impure_argument(c: Call, i: int)
    requires
        0 <= i < c.args.pos_args@.len(),
        impure_of(c.args.pos_args@[i].expr) == Some(true),
        forall|j: int| 0 <= j < i ==> impure_of(#[trigger] c.args.pos_args@[j].expr) is Some,
    ensures
        impure_of(Expr::Call(c)) == Some(true),
{
    lemma_arguments_purity(c.args.pos_args@, i);
}

} // verus!
