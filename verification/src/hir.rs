//! The high-level intermediate representation (HIR): the typed syntax tree
//! that the lowerer produces and that the checkers and desugarers walk.
//!
//! Each node keeps, as plain values, what the passes of this library read of
//! it: names, tokens, visibility, and the `TypeInfo` of typed nodes.
use vstd::prelude::*;

use crate::error::{opt_string_view, readable, readable_name};
use crate::strutil::ends_with_char;
use crate::token::{Token, TokenKind};
use crate::ty::{plain_view, TypeInfo, TypeView};

verus! {

/// The visibility written on an identifier.
#[derive(Debug, Clone, Copy, PartialEq, Eq, Structural)]
pub enum VisModifierSpec {
    /// `x`
    Private,
    /// names bound by record unpacking
    Auto,
    /// `.x`
    Public,
    /// `::x`
    ExplicitPrivate,
    /// `.[restriction]x`
    Restricted,
}

impl VisModifierSpec {
    /// The prefix the identifier is displayed with.
    pub fn display_as_accessor(&self) -> (s: &'static str)
        ensures
            s@ == match *self {
                VisModifierSpec::Auto => ":auto:"@,
                VisModifierSpec::Public => "."@,
                _ => "::"@,
            },
    {
        match self {
            VisModifierSpec::Auto => ":auto:",
            VisModifierSpec::Public => ".",
            _ => "::",
        }
    }

    pub fn is_public(&self) -> (b: bool)
        ensures
            b == (*self == VisModifierSpec::Public),
    {
        matches!(self, VisModifierSpec::Public)
    }
}

/// Clones an optional string.
pub fn clone_opt_string(s: &Option<String>) -> (r: Option<String>)
    ensures
        r == *s,
{
    match s {
        Some(x) => Some(x.clone()),
        None => None,
    }
}

/// What the type checker recorded about a variable.
#[derive(Debug)]
pub struct VarInfo {
    pub t: TypeInfo,
    /// The variable is public in its namespace.
    pub is_public: bool,
    /// The namespace the variable is defined in, e.g. `<module>::f`.
    pub def_namespace: String,
    /// The variable is a parameter of a subroutine.
    pub is_parameter: bool,
    /// The Python name of an API declared in a `.d.er` file.
    pub py_name: Option<String>,
}

impl Clone for VarInfo {
    fn clone(&self) -> (v: Self)
        ensures
            v == *self,
    {
        VarInfo {
            t: self.t.clone(),
            is_public: self.is_public,
            def_namespace: self.def_namespace.clone(),
            is_parameter: self.is_parameter,
            py_name: clone_opt_string(&self.py_name),
        }
    }
}

/// A name: its written visibility, its text, its qualified name (for
/// classes and modules) and what the type checker knows of it.
#[derive(Debug)]
pub struct Identifier {
    pub vis: VisModifierSpec,
    pub name: String,
    pub qual_name: Option<String>,
    pub vi: VarInfo,
}

impl Clone for Identifier {
    fn clone(&self) -> (i: Self)
        ensures
            i == *self,
    {
        Identifier {
            vis: self.vis,
            name: self.name.clone(),
            qual_name: clone_opt_string(&self.qual_name),
            vi: self.vi.clone(),
        }
    }
}

/// A name ending in `!` denotes a procedure (or a procedural method).
pub open spec fn is_procedural_name(name: Seq<char>) -> bool {
    name.len() > 0 && name.last() == '!'
}

/// Whether a character is uppercase in the Unicode sense (`char::is_uppercase`).
pub uninterp spec fn is_uppercase(c: char) -> bool;

/// `char::is_uppercase` of std.
#[verifier::external_body]
pub(crate) fn char_is_uppercase(c: char) -> (b: bool)
    ensures
        b == is_uppercase(c),
{
    c.is_uppercase()
}

/// A name starting with an uppercase letter denotes a constant.
pub open spec fn is_const_name(name: Seq<char>) -> bool {
    name.len() > 0 && is_uppercase(name[0])
}

impl Identifier {
    pub fn new(vis: VisModifierSpec, name: String, qual_name: Option<String>, vi: VarInfo) -> (i:
        Self)
        ensures
            i.vis == vis,
            i.name == name,
            i.qual_name == qual_name,
            i.vi == vi,
    {
        Identifier { vis, name, qual_name, vi }
    }

    pub fn inspect(&self) -> (s: &String)
        ensures
            *s == self.name,
    {
        &self.name
    }

    /// The name ends with `!`.
    pub fn is_procedural(&self) -> (b: bool)
        ensures
            b == is_procedural_name(self.name@),
    {
        ends_with_char(self.name.as_str(), '!')
    }

    /// The name starts with an uppercase letter.
    pub fn is_const(&self) -> (b: bool)
        ensures
            b == is_const_name(self.name@),
    {
        if self.name.as_str().unicode_len() == 0 {
            false
        } else {
            char_is_uppercase(self.name.as_str().get_char(0))
        }
    }

    /// The name is `_`.
    pub fn is_discarded(&self) -> (b: bool)
        ensures
            b == (self.name@ == "_"@),
    {
        crate::strutil::str_eq(self.name.as_str(), "_")
    }

    /// The name is that of an API declared for a Python module.
    pub fn is_py_api(&self) -> (b: bool)
        ensures
            b == (self.vi.py_name is Some),
    {
        self.vi.py_name.is_some()
    }

    pub fn is_public(&self) -> (b: bool)
        ensures
            b == self.vi.is_public,
    {
        self.vi.is_public
    }

    /// The identifier as written: its visibility prefix and its name.
    pub fn to_string_notype(&self) -> (s: String)
        ensures
            s@ == self.spec_display(),
    {
        let mut s = String::from_str(self.vis.display_as_accessor());
        s.append(self.name.as_str());
        s
    }

    pub open spec fn spec_display(&self) -> Seq<char> {
        (match self.vis {
            VisModifierSpec::Auto => ":auto:"@,
            VisModifierSpec::Public => "."@,
            _ => "::"@,
        }) + self.name@
    }
}

/// `obj.ident`
#[derive(Debug)]
pub struct Attribute {
    pub obj: Box<Expr>,
    pub ident: Identifier,
}

#[derive(Debug)]
pub enum Accessor {
    Ident(Identifier),
    Attr(Attribute),
}

#[derive(Debug)]
pub struct Literal {
    pub token: Token,
    pub t: TypeInfo,
}

#[derive(Debug)]
pub struct PosArg {
    pub expr: Expr,
}

#[derive(Debug)]
pub struct KwArg {
    pub keyword: Token,
    pub expr: Expr,
}

/// The arguments of a call: positional ones, `*args`, keyword ones and
/// `**kwargs`.
#[derive(Debug)]
pub struct Args {
    pub pos_args: Vec<PosArg>,
    pub var_args: Option<Box<PosArg>>,
    pub kw_args: Vec<KwArg>,
    pub kw_var: Option<Box<PosArg>>,
    /// The parentheses around the arguments, when written.
    pub paren: Option<(Token, Token)>,
}

/// `[a, b, c]`
#[derive(Debug)]
pub struct NormalList {
    pub elems: Args,
    pub t: TypeInfo,
}

/// `[elem; len]`
#[derive(Debug)]
pub struct ListWithLength {
    pub elem: Box<Expr>,
    pub len: Option<Box<Expr>>,
    pub t: TypeInfo,
}

/// `[elem | x <- xs; guard]`
#[derive(Debug)]
pub struct ListComprehension {
    pub elem: Box<Expr>,
    pub guard: Box<Expr>,
    pub t: TypeInfo,
}

#[derive(Debug)]
pub enum List {
    Normal(NormalList),
    WithLength(ListWithLength),
    Comprehension(ListComprehension),
}

#[derive(Debug)]
pub struct NormalTuple {
    pub elems: Args,
    pub t: TypeInfo,
}

#[derive(Debug)]
pub enum Tuple {
    Normal(NormalTuple),
}

#[derive(Debug)]
pub struct NormalSet {
    pub elems: Args,
    pub t: TypeInfo,
}

/// `{elem; len}`
#[derive(Debug)]
pub struct SetWithLength {
    pub elem: Box<Expr>,
    pub len: Box<Expr>,
    pub t: TypeInfo,
}

/// A set literal (`Set` is a word of Verus, hence the name).
#[derive(Debug)]
pub enum SetLit {
    Normal(NormalSet),
    WithLength(SetWithLength),
}

#[derive(Debug)]
pub struct KeyValue {
    pub key: Expr,
    pub value: Expr,
}

/// `{k: v, ...}`; dict comprehensions are not represented: neither checker
/// of this library handles them.
#[derive(Debug)]
pub struct NormalDict {
    pub kvs: Vec<KeyValue>,
    pub t: TypeInfo,
}

#[derive(Debug)]
pub enum Dict {
    Normal(NormalDict),
}

/// The attribute definitions of a record literal.
#[derive(Debug)]
pub struct RecordAttrs(pub Vec<Def>);

/// `{x = 1; y = 2}`
#[derive(Debug)]
pub struct Record {
    pub attrs: RecordAttrs,
    pub t: TypeInfo,
}

/// `lhs op rhs`; `t` is the type of the result.
#[derive(Debug)]
pub struct BinOp {
    pub op: Token,
    pub lhs: Box<Expr>,
    pub rhs: Box<Expr>,
    pub t: TypeInfo,
}

/// `op expr`; `t` is the type of the result.
#[derive(Debug)]
pub struct UnaryOp {
    pub op: Token,
    pub expr: Box<Expr>,
    pub t: TypeInfo,
}

/// `obj(args)` or `obj.attr_name(args)`.
#[derive(Debug)]
pub struct Call {
    pub obj: Box<Expr>,
    pub attr_name: Option<Identifier>,
    pub args: Args,
    /// The type of the value the call returns.
    pub t: TypeInfo,
    /// The call constructs a new instance (its return type occurs in none of
    /// its parameter types) of a class that defines `__init__!` or `__del__!`.
    pub constructs_effectful_instance: bool,
}

/// A sequence of expressions; its type is that of the last one.
#[derive(Debug)]
pub struct Block(pub Vec<Expr>);

/// Expressions kept only to be mapped to the Python AST.
#[derive(Debug)]
pub struct Dummy(pub Vec<Expr>);

/// The signature of a variable definition; `global` variables are stored
/// as globals.
#[derive(Debug)]
pub struct VarSignature {
    pub ident: Identifier,
    pub global: bool,
    pub t_spec: Option<TypeSpecWithOp>,
}

/// How a named parameter binds its argument: by value (a plain name), by
/// reference (`ref x`) or by mutable reference (`ref! x`).
#[derive(Debug, Clone, Copy, PartialEq, Eq, Structural)]
pub enum ParamBinding {
    Value,
    Ref,
    RefMut,
}

/// A parameter without default value; `name` is absent when the parameter
/// is a pattern other than a name (`_` written alone, say), `binding` says
/// how a named parameter binds (`Value` for a pattern), `t_spec` is the
/// written type specification, as displayed, if any.
#[derive(Debug)]
pub struct NonDefaultParamSignature {
    pub name: Option<String>,
    pub binding: ParamBinding,
    pub t_spec: Option<String>,
    pub vi: VarInfo,
}

#[derive(Debug)]
pub struct DefaultParamSignature {
    pub sig: NonDefaultParamSignature,
    pub default_val: Expr,
}

/// A guard of a parameter list: a condition, or a binding made when the
/// parameters match.
#[derive(Debug)]
pub enum GuardClause {
    Condition(Expr),
    Bind(Def),
}

#[derive(Debug)]
pub struct Params {
    pub non_defaults: Vec<NonDefaultParamSignature>,
    pub var_params: Option<Box<NonDefaultParamSignature>>,
    pub defaults: Vec<DefaultParamSignature>,
    pub kw_var_params: Option<Box<NonDefaultParamSignature>>,
    pub guards: Vec<GuardClause>,
    /// The parentheses around the parameters, when written.
    pub parens: Option<(Token, Token)>,
}

/// The signature of a subroutine definition; `captured_names` are the
/// outer names that its body refers to.
#[derive(Debug)]
pub struct SubrSignature {
    pub ident: Identifier,
    pub params: Params,
    pub return_t_spec: Option<TypeSpecWithOp>,
    pub captured_names: Vec<Identifier>,
}

/// `.*` or `::*` (glob import of names).
#[derive(Debug)]
pub struct GlobSignature {
    pub dummy_ident: Identifier,
    pub is_public: bool,
    pub names: Vec<String>,
}

#[derive(Debug)]
pub enum Signature {
    Var(VarSignature),
    Subr(SubrSignature),
    Glob(GlobSignature),
}

/// `params -> body` or `params => body`; `return_t_spec` is the written
/// return type specification, as displayed, if any.
#[derive(Debug)]
pub struct Lambda {
    pub params: Params,
    pub op: Token,
    pub return_t_spec: Option<String>,
    pub captured_names: Vec<Identifier>,
    pub body: Block,
    pub id: usize,
    pub t: TypeInfo,
}

#[derive(Debug)]
pub struct DefBody {
    pub block: Block,
}

/// `sig = body`
#[derive(Debug)]
pub struct Def {
    pub sig: Signature,
    pub body: DefBody,
}

/// A block of method definitions of a class (`C.` or `C|<: T|.`).
#[derive(Debug)]
pub struct Methods {
    pub class: TypeInfo,
    pub impl_trait: Option<TypeInfo>,
    pub defs: Block,
}

#[derive(Debug)]
pub struct ClassDef {
    pub sig: Signature,
    pub require_or_sup: Option<Box<Expr>>,
    pub methods_list: Vec<Methods>,
}

#[derive(Debug)]
pub struct PatchDef {
    pub sig: Signature,
    pub base: Box<Expr>,
    pub methods: Block,
}

/// `attr = block`: a re-definition of an attribute.
#[derive(Debug)]
pub struct ReDef {
    pub attr: Accessor,
    pub block: Block,
}

/// How an ascription relates an expression to a type: `x: T`, `x <: T`,
/// `x :> T`, or the cast `x as T`.
#[derive(Debug, Clone, Copy, PartialEq, Eq, Structural)]
pub enum AscriptionKind {
    TypeOf,
    SubtypeOf,
    SupertypeOf,
    AsCast,
}

impl AscriptionKind {
    /// Whether the ascription forces the type (`as`).
    pub fn is_force_cast(&self) -> (b: bool)
        ensures
            b == (*self == AscriptionKind::AsCast),
    {
        matches!(self, AscriptionKind::AsCast)
    }
}

/// A written type specification with its operator: the kind of the
/// ascription, the specification as written, the specification as an
/// expression (for checks at run time) and the type it denotes.
#[derive(Debug)]
pub struct TypeSpecWithOp {
    pub kind: AscriptionKind,
    pub t_spec: String,
    pub expr: Box<Expr>,
    pub spec_t: TypeInfo,
}

/// `expr: T` (or `<:`, `:>`, `as`).
#[derive(Debug)]
pub struct TypeAscription {
    pub expr: Box<Expr>,
    pub spec: TypeSpecWithOp,
}

#[derive(Debug)]
pub enum Expr {
    Literal(Literal),
    Accessor(Accessor),
    List(List),
    Tuple(Tuple),
    SetLit(SetLit),
    Dict(Dict),
    Record(Record),
    BinOp(BinOp),
    UnaryOp(UnaryOp),
    Call(Call),
    Lambda(Lambda),
    Def(Def),
    ClassDef(ClassDef),
    PatchDef(PatchDef),
    ReDef(ReDef),
    TypeAsc(TypeAscription),
    /// a code object
    Code(Block),
    /// a compound statement
    Compound(Block),
    Import(Accessor),
    Dummy(Dummy),
}

/// The top level of a module.
#[derive(Debug)]
pub struct Module(pub Vec<Expr>);

#[derive(Debug)]
pub struct HIR {
    pub name: String,
    pub module: Module,
}

/// `i` is the first keyword argument of `kws` named `key`.
pub open spec fn is_first_kw(kws: Seq<KwArg>, key: Seq<char>, i: int) -> bool {
    &&& 0 <= i < kws.len()
    &&& kws[i].keyword.content@ == key
    &&& forall|j: int| 0 <= j < i ==> kws[j].keyword.content@ != key
}

/// Some keyword argument of `kws` is named `key`.
pub open spec fn has_kw(kws: Seq<KwArg>, key: Seq<char>) -> bool {
    exists|j: int| 0 <= j < kws.len() && kws[j].keyword.content@ == key
}

/// The index of the first keyword argument named `key`.
fn position_of_kw(kws: &Vec<KwArg>, key: &str) -> (r: Option<usize>)
    ensures
        r matches Some(i) ==> is_first_kw(kws@, key@, i as int),
        r is None ==> !has_kw(kws@, key@),
{
    let mut i: usize = 0;
    while i < kws.len()
        invariant
            i <= kws@.len(),
            forall|j: int| 0 <= j < i ==> kws@[j].keyword.content@ != key@,
        decreases kws.len() - i,
    {
        if crate::strutil::str_eq(kws[i].keyword.content.as_str(), key) {
            return Some(i);
        }
        i += 1;
    }
    None
}

/// The views of an optional reference to an expression.
pub open spec fn opt_expr(o: Option<&Expr>) -> Option<Expr> {
    match o {
        Some(e) => Some(*e),
        None => None,
    }
}

/// The argument at `index` when positional arguments are counted first and
/// keyword arguments after them.
pub open spec fn arg_at(args: Args, index: int) -> Option<Expr> {
    if 0 <= index < args.pos_args@.len() {
        Some(args.pos_args@[index].expr)
    } else if 0 <= index - args.pos_args@.len() < args.kw_args@.len() {
        Some(args.kw_args@[index - args.pos_args@.len()].expr)
    } else {
        None
    }
}

/// The expressions of `pos`, each wrapped as a positional argument.
pub open spec fn pos_args_of(pos: Seq<PosArg>, exprs: Seq<Expr>) -> bool {
    &&& pos.len() == exprs.len()
    &&& forall|i: int| 0 <= i < exprs.len() ==> #[trigger] pos[i].expr == exprs[i]
}

impl Args {
    pub fn new(
        pos_args: Vec<PosArg>,
        var_args: Option<PosArg>,
        kw_args: Vec<KwArg>,
        kw_var: Option<PosArg>,
        paren: Option<(Token, Token)>,
    ) -> (a: Self)
        ensures
            a.pos_args == pos_args,
            a.paren == paren,
            a.kw_args == kw_args,
            a.var_args == match var_args {
                Some(v) => Some(Box::new(v)),
                None => None::<Box<PosArg>>,
            },
            a.kw_var == match kw_var {
                Some(v) => Some(Box::new(v)),
                None => None::<Box<PosArg>>,
            },
    {
        let var_args = match var_args {
            Some(v) => Some(Box::new(v)),
            None => None,
        };
        let kw_var = match kw_var {
            Some(v) => Some(Box::new(v)),
            None => None,
        };
        Args { pos_args, var_args, kw_args, kw_var, paren }
    }

    /// Positional arguments only, one per expression, in order.
    pub fn values(exprs: Vec<Expr>, paren: Option<(Token, Token)>) -> (a: Self)
        ensures
            pos_args_of(a.pos_args@, exprs@),
            a.paren == paren,
            a.var_args is None,
            a.kw_args@.len() == 0,
            a.kw_var is None,
    {
        let mut exprs = exprs;
        let ghost orig = exprs@;
        let mut rev: Vec<PosArg> = Vec::new();
        while exprs.len() > 0
            invariant
                exprs@.len() + rev@.len() == orig.len(),
                exprs@ == orig.take(exprs@.len() as int),
                forall|i: int|
                    0 <= i < rev@.len() ==> #[trigger] rev@[i].expr == orig[orig.len() - 1 - i],
            decreases exprs.len(),
        {
            let e = exprs.pop().unwrap();
            rev.push(PosArg { expr: e });
        }
        let mut pos_args: Vec<PosArg> = Vec::new();
        while rev.len() > 0
            invariant
                pos_args@.len() + rev@.len() == orig.len(),
                forall|i: int|
                    0 <= i < rev@.len() ==> #[trigger] rev@[i].expr == orig[orig.len() - 1 - i],
                forall|i: int| 0 <= i < pos_args@.len() ==> #[trigger] pos_args@[i].expr == orig[i],
            decreases rev.len(),
        {
            let p = rev.pop().unwrap();
            pos_args.push(p);
        }
        Args { pos_args, var_args: None, kw_args: Vec::new(), kw_var: None, paren }
    }

    pub fn pos_only(pos_args: Vec<PosArg>, paren: Option<(Token, Token)>) -> (a: Self)
        ensures
            a.pos_args == pos_args,
            a.var_args is None,
            a.kw_args@.len() == 0,
            a.kw_var is None,
            a.paren == paren,
    {
        Args { pos_args, var_args: None, kw_args: Vec::new(), kw_var: None, paren }
    }

    pub fn single(pos_arg: PosArg) -> (a: Self)
        ensures
            a.pos_args@ == seq![pos_arg],
            a.var_args is None,
            a.kw_args@.len() == 0,
            a.kw_var is None,
            a.paren is None,
    {
        let mut v = Vec::new();
        v.push(pos_arg);
        Args::pos_only(v, None)
    }

    pub fn var_args(var_args: PosArg, paren: Option<(Token, Token)>) -> (a: Self)
        ensures
            a.pos_args@.len() == 0,
            a.var_args == Some(Box::new(var_args)),
            a.kw_args@.len() == 0,
            a.kw_var is None,
            a.paren == paren,
    {
        Args {
            pos_args: Vec::new(),
            var_args: Some(Box::new(var_args)),
            kw_args: Vec::new(),
            kw_var: None,
            paren,
        }
    }

    pub fn empty() -> (a: Self)
        ensures
            a.pos_args@.len() == 0,
            a.var_args is None,
            a.kw_args@.len() == 0,
            a.kw_var is None,
            a.paren is None,
    {
        Args { pos_args: Vec::new(), var_args: None, kw_args: Vec::new(), kw_var: None, paren: None }
    }

    /// The number of arguments: positional ones, `*args` and keyword ones.
    pub fn len(&self) -> (n: usize)
        requires
            self.pos_args@.len() + self.kw_args@.len() < usize::MAX,
        ensures
            n == self.pos_args@.len() + (if self.var_args is Some {
                1int
            } else {
                0int
            }) + self.kw_args@.len(),
    {
        let var_argc: usize = if self.var_args.is_none() {
            0
        } else {
            1
        };
        self.pos_args.len() + var_argc + self.kw_args.len()
    }

    pub fn is_empty(&self) -> (b: bool)
        ensures
            b == (self.pos_args@.len() == 0 && self.var_args is None && self.kw_args@.len() == 0),
    {
        self.pos_args.len() == 0 && self.var_args.is_none() && self.kw_args.len() == 0
    }

    pub fn kw_len(&self) -> (n: usize)
        ensures
            n == self.kw_args@.len(),
    {
        self.kw_args.len()
    }

    pub fn push_pos(&mut self, pos: PosArg)
        ensures
            final(self).pos_args@ == old(self).pos_args@.push(pos),
            final(self).var_args == old(self).var_args,
            final(self).kw_args == old(self).kw_args,
            final(self).kw_var == old(self).kw_var,
            final(self).paren == old(self).paren,
    {
        self.pos_args.push(pos);
    }

    pub fn push_kw(&mut self, kw: KwArg)
        ensures
            final(self).kw_args@ == old(self).kw_args@.push(kw),
            final(self).pos_args == old(self).pos_args,
            final(self).var_args == old(self).var_args,
            final(self).kw_var == old(self).kw_var,
            final(self).paren == old(self).paren,
    {
        self.kw_args.push(kw);
    }

    /// Removes the argument at `index`, counting positional arguments first.
    pub fn remove(&mut self, index: usize) -> (e: Expr)
        requires
            index < old(self).pos_args@.len() + old(self).kw_args@.len(),
        ensures
            Some(e) == arg_at(*old(self), index as int),
            index < old(self).pos_args@.len() ==> final(self).pos_args@ == old(self).pos_args@.remove(index as int) && final(self).kw_args == old(self).kw_args,
            index >= old(self).pos_args@.len() ==> final(self).kw_args@ == old(self).kw_args@.remove(index - old(self).pos_args@.len()) && final(self).pos_args == old(self).pos_args,
            final(self).var_args == old(self).var_args,
            final(self).kw_var == old(self).kw_var,
            final(self).paren == old(self).paren,
    {
        if index < self.pos_args.len() {
            self.pos_args.remove(index).expr
        } else {
            let k = index - self.pos_args.len();
            self.kw_args.remove(k).expr
        }
    }

    /// Like `remove`, but `None` (and no change) when there is no argument at
    /// `index`.
    pub fn try_remove(&mut self, index: usize) -> (e: Option<Expr>)
        ensures
            e == arg_at(*old(self), index as int),
            index < old(self).pos_args@.len() ==> final(self).pos_args@ == old(self).pos_args@.remove(index as int) && final(self).kw_args == old(self).kw_args,
            old(self).pos_args@.len() <= index < old(self).pos_args@.len() + old(self).kw_args@.len() ==> final(self).kw_args@ == old(self).kw_args@.remove(
                index - old(self).pos_args@.len(),
            ) && final(self).pos_args == old(self).pos_args,
            index >= old(self).pos_args@.len() + old(self).kw_args@.len() ==> *final(self) == *old(self),
            final(self).var_args == old(self).var_args,
            final(self).kw_var == old(self).kw_var,
            final(self).paren == old(self).paren,
    {
        if index < self.pos_args.len() {
            Some(self.pos_args.remove(index).expr)
        } else {
            let k = index - self.pos_args.len();
            if k < self.kw_args.len() {
                Some(self.kw_args.remove(k).expr)
            } else {
                None
            }
        }
    }

    pub fn try_remove_pos(&mut self, index: usize) -> (p: Option<PosArg>)
        ensures
            index < old(self).pos_args@.len() ==> p == Some(old(self).pos_args@[index as int])
                && final(self).pos_args@ == old(self).pos_args@.remove(index as int),
            index >= old(self).pos_args@.len() ==> p is None && final(self).pos_args == old(self).pos_args,
            final(self).var_args == old(self).var_args,
            final(self).kw_args == old(self).kw_args,
            final(self).kw_var == old(self).kw_var,
            final(self).paren == old(self).paren,
    {
        if index < self.pos_args.len() {
            Some(self.pos_args.remove(index))
        } else {
            None
        }
    }

    pub fn try_remove_kw(&mut self, index: usize) -> (k: Option<KwArg>)
        ensures
            index < old(self).kw_args@.len() ==> k == Some(old(self).kw_args@[index as int])
                && final(self).kw_args@ == old(self).kw_args@.remove(index as int),
            index >= old(self).kw_args@.len() ==> k is None && final(self).kw_args == old(self).kw_args,
            final(self).pos_args == old(self).pos_args,
            final(self).var_args == old(self).var_args,
            final(self).kw_var == old(self).kw_var,
            final(self).paren == old(self).paren,
    {
        if index < self.kw_args.len() {
            Some(self.kw_args.remove(index))
        } else {
            None
        }
    }

    /// The argument at `index`, counting positional arguments first.
    pub fn get(&self, index: usize) -> (e: Option<&Expr>)
        ensures
            opt_expr(e) == arg_at(*self, index as int),
    {
        if index < self.pos_args.len() {
            Some(&self.pos_args[index].expr)
        } else {
            let k = index - self.pos_args.len();
            if k < self.kw_args.len() {
                Some(&self.kw_args[k].expr)
            } else {
                None
            }
        }
    }

    /// The last keyword argument, else the last positional one.
    pub fn last(&self) -> (e: Option<&Expr>)
        ensures
            opt_expr(e) == if self.kw_args@.len() > 0 {
                Some(self.kw_args@.last().expr)
            } else if self.pos_args@.len() > 0 {
                Some(self.pos_args@.last().expr)
            } else {
                None
            },
    {
        if self.kw_args.len() == 0 {
            if self.pos_args.len() == 0 {
                None
            } else {
                Some(&self.pos_args[self.pos_args.len() - 1].expr)
            }
        } else {
            Some(&self.kw_args[self.kw_args.len() - 1].expr)
        }
    }

    /// Takes the first positional argument, else the first keyword argument
    /// named `key`.
    pub fn remove_left_or_key(&mut self, key: &str) -> (e: Option<Expr>)
        ensures
            old(self).pos_args@.len() > 0 ==> e == Some(old(self).pos_args@[0].expr) && final(self).pos_args@ == old(self).pos_args@.remove(0) && final(self).kw_args == old(self).kw_args,
            old(self).pos_args@.len() == 0 && has_kw(old(self).kw_args@, key@) ==> exists|i: int|
                is_first_kw(old(self).kw_args@, key@, i) && e == Some(old(self).kw_args@[i].expr)
                    && final(self).kw_args@ == old(self).kw_args@.remove(i) && final(self).pos_args == old(self).pos_args,
            old(self).pos_args@.len() == 0 && !has_kw(old(self).kw_args@, key@) ==> (e is None
                && *final(self) == *old(self)),
            final(self).var_args == old(self).var_args,
            final(self).kw_var == old(self).kw_var,
            final(self).paren == old(self).paren,
    {
        if self.pos_args.len() > 0 {
            Some(self.pos_args.remove(0).expr)
        } else {
            match position_of_kw(&self.kw_args, key) {
                Some(i) => Some(self.kw_args.remove(i).expr),
                None => None,
            }
        }
    }

    /// The first positional argument, else the first keyword argument named
    /// `key`.
    pub fn get_left_or_key(&self, key: &str) -> (e: Option<&Expr>)
        ensures
            self.pos_args@.len() > 0 ==> opt_expr(e) == Some(self.pos_args@[0].expr),
            self.pos_args@.len() == 0 && has_kw(self.kw_args@, key@) ==> exists|i: int|
                is_first_kw(self.kw_args@, key@, i) && opt_expr(e) == Some(self.kw_args@[i].expr),
            self.pos_args@.len() == 0 && !has_kw(self.kw_args@, key@) ==> e is None,
    {
        if self.pos_args.len() > 0 {
            Some(&self.pos_args[0].expr)
        } else {
            match position_of_kw(&self.kw_args, key) {
                Some(i) => Some(&self.kw_args[i].expr),
                None => None,
            }
        }
    }

    pub fn insert_pos(&mut self, idx: usize, pos: PosArg)
        requires
            idx <= old(self).pos_args@.len(),
        ensures
            final(self).pos_args@ == old(self).pos_args@.insert(idx as int, pos),
            final(self).var_args == old(self).var_args,
            final(self).kw_args == old(self).kw_args,
            final(self).kw_var == old(self).kw_var,
            final(self).paren == old(self).paren,
    {
        self.pos_args.insert(idx, pos);
    }

    /// The first keyword argument named `keyword`.
    pub fn get_kw(&self, keyword: &str) -> (e: Option<&Expr>)
        ensures
            has_kw(self.kw_args@, keyword@) ==> exists|i: int|
                is_first_kw(self.kw_args@, keyword@, i) && opt_expr(e) == Some(
                    self.kw_args@[i].expr,
                ),
            !has_kw(self.kw_args@, keyword@) ==> e is None,
    {
        match position_of_kw(&self.kw_args, keyword) {
            Some(i) => Some(&self.kw_args[i].expr),
            None => None,
        }
    }
}

impl Params {
    pub fn new(
        non_defaults: Vec<NonDefaultParamSignature>,
        var_params: Option<Box<NonDefaultParamSignature>>,
        defaults: Vec<DefaultParamSignature>,
        kw_var_params: Option<Box<NonDefaultParamSignature>>,
        guards: Vec<GuardClause>,
        parens: Option<(Token, Token)>,
    ) -> (p: Self)
        ensures
            p.non_defaults == non_defaults,
            p.var_params == var_params,
            p.defaults == defaults,
            p.kw_var_params == kw_var_params,
            p.guards == guards,
            p.parens == parens,
    {
        Params { non_defaults, var_params, defaults, kw_var_params, guards, parens }
    }

    pub fn empty() -> (p: Self)
        ensures
            p.non_defaults@.len() == 0,
            p.var_params is None,
            p.defaults@.len() == 0,
            p.kw_var_params is None,
            p.guards@.len() == 0,
            p.parens is None,
    {
        Params {
            non_defaults: Vec::new(),
            var_params: None,
            defaults: Vec::new(),
            kw_var_params: None,
            guards: Vec::new(),
            parens: None,
        }
    }

    pub fn single(sig: NonDefaultParamSignature) -> (p: Self)
        ensures
            p.non_defaults@ == seq![sig],
            p.var_params is None,
            p.defaults@.len() == 0,
            p.kw_var_params is None,
            p.guards@.len() == 0,
            p.parens is None,
    {
        let mut v = Vec::new();
        v.push(sig);
        Params {
            non_defaults: v,
            var_params: None,
            defaults: Vec::new(),
            kw_var_params: None,
            guards: Vec::new(),
            parens: None,
        }
    }

    pub fn non_default_only(non_defaults: Vec<NonDefaultParamSignature>) -> (p: Self)
        ensures
            p.non_defaults == non_defaults,
            p.var_params is None,
            p.defaults@.len() == 0,
            p.kw_var_params is None,
            p.guards@.len() == 0,
            p.parens is None,
    {
        Params {
            non_defaults,
            var_params: None,
            defaults: Vec::new(),
            kw_var_params: None,
            guards: Vec::new(),
            parens: None,
        }
    }

    pub fn var_params(sig: NonDefaultParamSignature) -> (p: Self)
        ensures
            p.non_defaults@.len() == 0,
            p.var_params == Some(Box::new(sig)),
            p.defaults@.len() == 0,
            p.kw_var_params is None,
            p.guards@.len() == 0,
            p.parens is None,
    {
        Params {
            non_defaults: Vec::new(),
            var_params: Some(Box::new(sig)),
            defaults: Vec::new(),
            kw_var_params: None,
            guards: Vec::new(),
            parens: None,
        }
    }

    /// The number of parameters with and without default value (`*args`
    /// and `**kwargs` are not counted).
    pub fn len(&self) -> (n: usize)
        requires
            self.non_defaults@.len() + self.defaults@.len() <= usize::MAX,
        ensures
            n == self.non_defaults@.len() + self.defaults@.len(),
    {
        self.non_defaults.len() + self.defaults.len()
    }

    pub fn is_empty(&self) -> (b: bool)
        ensures
            b == (self.non_defaults@.len() + self.defaults@.len() == 0),
    {
        self.non_defaults.len() == 0 && self.defaults.len() == 0
    }

    pub fn push_non_default(&mut self, sig: NonDefaultParamSignature)
        ensures
            final(self).non_defaults@ == old(self).non_defaults@.push(sig),
            final(self).var_params == old(self).var_params,
            final(self).defaults == old(self).defaults,
            final(self).kw_var_params == old(self).kw_var_params,
            final(self).guards == old(self).guards,
            final(self).parens == old(self).parens,
    {
        self.non_defaults.push(sig);
    }

    pub fn push_var(&mut self, sig: NonDefaultParamSignature)
        ensures
            final(self).var_params == Some(Box::new(sig)),
            final(self).non_defaults == old(self).non_defaults,
            final(self).defaults == old(self).defaults,
            final(self).kw_var_params == old(self).kw_var_params,
            final(self).guards == old(self).guards,
            final(self).parens == old(self).parens,
    {
        self.var_params = Some(Box::new(sig));
    }

    pub fn push_default(&mut self, sig: DefaultParamSignature)
        ensures
            final(self).defaults@ == old(self).defaults@.push(sig),
            final(self).non_defaults == old(self).non_defaults,
            final(self).var_params == old(self).var_params,
            final(self).kw_var_params == old(self).kw_var_params,
            final(self).guards == old(self).guards,
            final(self).parens == old(self).parens,
    {
        self.defaults.push(sig);
    }

    pub fn push_kw_var(&mut self, sig: NonDefaultParamSignature)
        ensures
            final(self).kw_var_params == Some(Box::new(sig)),
            final(self).non_defaults == old(self).non_defaults,
            final(self).var_params == old(self).var_params,
            final(self).defaults == old(self).defaults,
            final(self).guards == old(self).guards,
            final(self).parens == old(self).parens,
    {
        self.kw_var_params = Some(Box::new(sig));
    }
}

impl NonDefaultParamSignature {
    pub fn inspect(&self) -> (n: Option<&String>)
        ensures
            n == match self.name {
                Some(s) => Some(&s),
                None => None::<&String>,
            },
    {
        match &self.name {
            Some(s) => Some(s),
            None => None,
        }
    }
}

impl DefaultParamSignature {
    pub fn inspect(&self) -> (n: Option<&String>)
        ensures
            n == match self.sig.name {
                Some(s) => Some(&s),
                None => None::<&String>,
            },
    {
        self.sig.inspect()
    }
}

impl Signature {
    /// The identifier the signature binds.
    pub open spec fn spec_ident(&self) -> Identifier {
        match *self {
            Signature::Var(v) => v.ident,
            Signature::Subr(s) => s.ident,
            Signature::Glob(g) => g.dummy_ident,
        }
    }

    pub open spec fn spec_is_procedural(&self) -> bool {
        match *self {
            Signature::Var(v) => is_procedural_name(v.ident.name@),
            Signature::Subr(s) => is_procedural_name(s.ident.name@),
            Signature::Glob(_) => false,
        }
    }

    pub open spec fn spec_is_const(&self) -> bool {
        match *self {
            Signature::Var(v) => is_const_name(v.ident.name@),
            Signature::Subr(s) => is_const_name(s.ident.name@),
            Signature::Glob(_) => false,
        }
    }

    pub open spec fn spec_is_public(&self) -> bool {
        match *self {
            Signature::Var(v) => v.ident.vi.is_public,
            Signature::Subr(s) => s.ident.vi.is_public,
            Signature::Glob(g) => g.is_public,
        }
    }

    pub fn is_subr(&self) -> (b: bool)
        ensures
            b == (*self is Subr),
    {
        matches!(self, Signature::Subr(_))
    }

    pub fn is_glob(&self) -> (b: bool)
        ensures
            b == (*self is Glob),
    {
        matches!(self, Signature::Glob(_))
    }

    pub fn is_const(&self) -> (b: bool)
        ensures
            b == self.spec_is_const(),
    {
        match self {
            Signature::Var(v) => v.ident.is_const(),
            Signature::Subr(s) => s.ident.is_const(),
            Signature::Glob(_) => false,
        }
    }

    pub fn is_procedural(&self) -> (b: bool)
        ensures
            b == self.spec_is_procedural(),
    {
        match self {
            Signature::Var(v) => v.ident.is_procedural(),
            Signature::Subr(s) => s.ident.is_procedural(),
            Signature::Glob(_) => false,
        }
    }

    /// Whether the bound name is public.
    pub fn is_public(&self) -> (b: bool)
        ensures
            b == self.spec_is_public(),
    {
        match self {
            Signature::Var(v) => v.ident.vi.is_public,
            Signature::Subr(s) => s.ident.vi.is_public,
            Signature::Glob(g) => g.is_public,
        }
    }

    pub fn inspect(&self) -> (n: &String)
        ensures
            *n == self.spec_ident().name,
    {
        &self.ident().name
    }

    pub fn ident(&self) -> (i: &Identifier)
        ensures
            *i == self.spec_ident(),
    {
        match self {
            Signature::Var(v) => &v.ident,
            Signature::Subr(s) => &s.ident,
            Signature::Glob(g) => &g.dummy_ident,
        }
    }

    pub fn into_ident(self) -> (i: Identifier)
        ensures
            i == self.spec_ident(),
    {
        match self {
            Signature::Var(v) => v.ident,
            Signature::Subr(s) => s.ident,
            Signature::Glob(g) => g.dummy_ident,
        }
    }

    pub fn params(&self) -> (p: Option<&Params>)
        ensures
            p == match *self {
                Signature::Subr(s) => Some(&s.params),
                _ => None::<&Params>,
            },
    {
        match self {
            Signature::Subr(s) => Some(&s.params),
            _ => None,
        }
    }
}

impl Lambda {
    /// A lambda written with `=>` is a procedure.
    pub fn is_procedural(&self) -> (b: bool)
        ensures
            b == (self.op.kind == TokenKind::ProcArrow),
    {
        self.op.is(TokenKind::ProcArrow)
    }

    /// The name the lambda is compiled under, `::<lambda_{id}>`.
    pub fn name_to_string(&self) -> (s: String)
        ensures
            s@ == "::<lambda_"@ + crate::error::decimal(self.id as nat) + ">"@,
    {
        let mut s = String::from_str("::<lambda_");
        let id = crate::error::decimal_string(self.id);
        s.append(id.as_str());
        s.append(">");
        s
    }
}

/// `e` is a definition of `name`.
pub open spec fn is_def_named(e: Expr, name: Seq<char>) -> bool {
    e matches Expr::Def(d) && d.sig.spec_ident().name@ == name
}

/// `i` is the first definition of `name` among the expressions `es`.
pub open spec fn is_first_def(es: Seq<Expr>, name: Seq<char>, i: int) -> bool {
    &&& 0 <= i < es.len()
    &&& is_def_named(es[i], name)
    &&& forall|j: int| 0 <= j < i ==> !is_def_named(#[trigger] es[j], name)
}

/// Some expression of `es` is a definition of `name`.
pub open spec fn has_def(es: Seq<Expr>, name: Seq<char>) -> bool {
    exists|j: int| 0 <= j < es.len() && is_def_named(#[trigger] es[j], name)
}

fn position_of_def(es: &Vec<Expr>, name: &str) -> (r: Option<usize>)
    ensures
        r matches Some(i) ==> is_first_def(es@, name@, i as int),
        r is None ==> !has_def(es@, name@),
{
    let mut i: usize = 0;
    while i < es.len()
        invariant
            i <= es@.len(),
            forall|j: int| 0 <= j < i ==> !is_def_named(#[trigger] es@[j], name@),
        decreases es.len() - i,
    {
        match &es[i] {
            Expr::Def(def) => {
                if crate::strutil::str_eq(def.sig.inspect().as_str(), name) {
                    return Some(i);
                }
            },
            _ => {},
        }
        i += 1;
    }
    None
}

impl Block {
    pub fn new(exprs: Vec<Expr>) -> (b: Self)
        ensures
            b.0 == exprs,
    {
        Block(exprs)
    }

    pub fn empty() -> (b: Self)
        ensures
            b.0@.len() == 0,
    {
        Block(Vec::new())
    }

    pub fn len(&self) -> (n: usize)
        ensures
            n == self.0@.len(),
    {
        self.0.len()
    }

    pub fn is_empty(&self) -> (b: bool)
        ensures
            b == (self.0@.len() == 0),
    {
        self.0.len() == 0
    }

    pub fn push(&mut self, e: Expr)
        ensures
            final(self).0@ == old(self).0@.push(e),
    {
        self.0.push(e);
    }

    pub fn extend(&mut self, other: Block)
        ensures
            final(self).0@ == old(self).0@ + other.0@,
    {
        let mut other = other;
        self.0.append(&mut other.0);
    }

    pub fn last(&self) -> (e: Option<&Expr>)
        ensures
            opt_expr(e) == if self.0@.len() > 0 {
                Some(self.0@.last())
            } else {
                None
            },
    {
        if self.0.len() == 0 {
            None
        } else {
            Some(&self.0[self.0.len() - 1])
        }
    }

    pub fn first(&self) -> (e: Option<&Expr>)
        ensures
            opt_expr(e) == if self.0@.len() > 0 {
                Some(self.0@[0])
            } else {
                None
            },
    {
        if self.0.len() == 0 {
            None
        } else {
            Some(&self.0[0])
        }
    }

    /// Removes the first definition of `name` and returns it.
    pub fn remove_def(&mut self, name: &str) -> (d: Option<Def>)
        ensures
            has_def(old(self).0@, name@) ==> exists|i: int|
                is_first_def(old(self).0@, name@, i) && (old(self).0@[i] matches Expr::Def(od) && d
                    == Some(od)) && final(self).0@ == old(self).0@.remove(i),
            !has_def(old(self).0@, name@) ==> d is None && *final(self) == *old(self),
    {
        match position_of_def(&self.0, name) {
            Some(i) => {
                let e = self.0.remove(i);
                match e {
                    Expr::Def(def) => Some(def),
                    _ => None,
                }
            },
            None => None,
        }
    }

    /// The first definition of `name`.
    pub fn get_def(&self, name: &str) -> (d: Option<&Def>)
        ensures
            has_def(self.0@, name@) ==> exists|i: int|
                is_first_def(self.0@, name@, i) && (self.0@[i] matches Expr::Def(od) && d == Some(&od)),
            !has_def(self.0@, name@) ==> d is None,
    {
        match position_of_def(&self.0, name) {
            Some(i) => match &self.0[i] {
                Expr::Def(def) => Some(def),
                _ => None,
            },
            None => None,
        }
    }
}

impl RecordAttrs {
    pub fn len(&self) -> (n: usize)
        ensures
            n == self.0@.len(),
    {
        self.0.len()
    }

    pub fn is_empty(&self) -> (b: bool)
        ensures
            b == (self.0@.len() == 0),
    {
        self.0.len() == 0
    }

    pub fn push(&mut self, attr: Def)
        ensures
            final(self).0@ == old(self).0@.push(attr),
    {
        self.0.push(attr);
    }

    pub fn extend(&mut self, attrs: RecordAttrs)
        ensures
            final(self).0@ == old(self).0@ + attrs.0@,
    {
        let mut attrs = attrs;
        self.0.append(&mut attrs.0);
    }

    /// The first attribute named `name`.
    pub fn get(&self, name: &str) -> (d: Option<&Def>)
        ensures
            d matches Some(def) ==> exists|i: int|
                0 <= i < self.0@.len() && self.0@[i] == *def && def.sig.spec_ident().name@ == name@
                    && forall|j: int| 0 <= j < i ==> self.0@[j].sig.spec_ident().name@ != name@,
            d is None ==> forall|j: int|
                0 <= j < self.0@.len() ==> self.0@[j].sig.spec_ident().name@ != name@,
    {
        let mut i: usize = 0;
        while i < self.0.len()
            invariant
                i <= self.0@.len(),
                forall|j: int| 0 <= j < i ==> self.0@[j].sig.spec_ident().name@ != name@,
            decreases self.0.len() - i,
        {
            if crate::strutil::str_eq(self.0[i].sig.inspect().as_str(), name) {
                return Some(&self.0[i]);
            }
            i += 1;
        }
        None
    }
}

/// The type of what an accessor denotes.
pub open spec fn acc_t(a: Accessor) -> TypeView {
    match a {
        Accessor::Ident(i) => i.vi.t@,
        Accessor::Attr(at) => at.ident.vi.t@,
    }
}

/// The type of an expression: definitions have type `NoneType`, a block has
/// the type of its last expression (`Failure` when empty), and every other
/// node carries its type.
pub open spec fn t_of(e: Expr) -> TypeView
    decreases e,
{
    match e {
        Expr::Literal(l) => l.t@,
        Expr::Accessor(a) => acc_t(a),
        Expr::List(l) => match l {
            List::Normal(n) => n.t@,
            List::WithLength(w) => w.t@,
            List::Comprehension(c) => c.t@,
        },
        Expr::Tuple(Tuple::Normal(t)) => t.t@,
        Expr::SetLit(st) => match st {
            SetLit::Normal(n) => n.t@,
            SetLit::WithLength(w) => w.t@,
        },
        Expr::Dict(Dict::Normal(d)) => d.t@,
        Expr::Record(r) => r.t@,
        Expr::BinOp(b) => b.t@,
        Expr::UnaryOp(u) => u.t@,
        Expr::Call(c) => c.t@,
        Expr::Lambda(l) => l.t@,
        Expr::TypeAsc(t) => if t.spec.kind == AscriptionKind::AsCast {
            t.spec.spec_t@
        } else {
            t_of(*t.expr)
        },
        Expr::Def(_) => plain_view("NoneType"@),
        Expr::ClassDef(_) => plain_view("NoneType"@),
        Expr::PatchDef(_) => plain_view("NoneType"@),
        Expr::ReDef(_) => plain_view("NoneType"@),
        Expr::Code(b) => if b.0@.len() == 0 {
            plain_view("Failure"@)
        } else {
            t_of(b.0@.last())
        },
        Expr::Compound(b) => if b.0@.len() == 0 {
            plain_view("Failure"@)
        } else {
            t_of(b.0@.last())
        },
        Expr::Import(a) => acc_t(a),
        Expr::Dummy(_) => plain_view("Failure"@),
    }
}

impl Accessor {
    pub fn attr(obj: Expr, ident: Identifier) -> (a: Self)
        ensures
            a == Accessor::Attr(Attribute { obj: Box::new(obj), ident }),
    {
        Accessor::Attr(Attribute { obj: Box::new(obj), ident })
    }

    pub open spec fn spec_var_info(&self) -> VarInfo {
        match *self {
            Accessor::Ident(i) => i.vi,
            Accessor::Attr(a) => a.ident.vi,
        }
    }

    /// What the type checker knows of the accessed name.
    pub fn var_info(&self) -> (v: &VarInfo)
        ensures
            *v == self.spec_var_info(),
    {
        match self {
            Accessor::Ident(i) => &i.vi,
            Accessor::Attr(a) => &a.ident.vi,
        }
    }

    pub fn is_py_api(&self) -> (b: bool)
        ensures
            b == (self.spec_var_info().py_name is Some),
    {
        self.var_info().py_name.is_some()
    }

    /// The last name of the accessor (`x` of `a.b.x`).
    pub fn last_name(&self) -> (n: &String)
        ensures
            *n == match *self {
                Accessor::Ident(i) => i.name,
                Accessor::Attr(a) => a.ident.name,
            },
    {
        match self {
            Accessor::Ident(i) => &i.name,
            Accessor::Attr(a) => &a.ident.name,
        }
    }

    /// The receiver of an attribute access.
    pub fn obj(&self) -> (o: Option<&Expr>)
        ensures
            opt_expr(o) == match *self {
                Accessor::Attr(a) => Some(*a.obj),
                _ => None,
            },
    {
        match self {
            Accessor::Attr(a) => Some(&*a.obj),
            _ => None,
        }
    }

    pub fn t(&self) -> (t: TypeInfo)
        ensures
            t@ == acc_t(*self),
    {
        self.var_info().t.clone()
    }
}

/// The innermost receiver of a chain of attribute accesses: the first
/// receiver that is not itself an attribute access.
pub open spec fn root_obj_of(a: Accessor) -> Option<Expr>
    decreases a,
{
    match a {
        Accessor::Ident(_) => None,
        Accessor::Attr(at) => match *at.obj {
            Expr::Accessor(Accessor::Ident(i)) => Some(*at.obj),
            Expr::Accessor(inner) => root_obj_of(inner),
            other => Some(other),
        },
    }
}

impl Accessor {
    /// The innermost receiver of the access, if it is an attribute access.
    pub fn root_obj(&self) -> (o: Option<&Expr>)
        ensures
            opt_expr(o) == root_obj_of(*self),
        decreases *self,
    {
        match self {
            Accessor::Ident(_) => None,
            Accessor::Attr(at) => match &*at.obj {
                Expr::Accessor(Accessor::Ident(_)) => Some(&*at.obj),
                Expr::Accessor(inner) => inner.root_obj(),
                other => Some(other),
            },
        }
    }
}

impl Expr {
    /// The type of the expression.
    pub fn t(&self) -> (t: TypeInfo)
        ensures
            t@ == t_of(*self),
        decreases *self,
    {
        match self {
            Expr::Literal(l) => l.t.clone(),
            Expr::Accessor(a) => a.t(),
            Expr::List(l) => match l {
                List::Normal(n) => n.t.clone(),
                List::WithLength(w) => w.t.clone(),
                List::Comprehension(c) => c.t.clone(),
            },
            Expr::Tuple(Tuple::Normal(t)) => t.t.clone(),
            Expr::SetLit(st) => match st {
                SetLit::Normal(n) => n.t.clone(),
                SetLit::WithLength(w) => w.t.clone(),
            },
            Expr::Dict(Dict::Normal(d)) => d.t.clone(),
            Expr::Record(r) => r.t.clone(),
            Expr::BinOp(b) => b.t.clone(),
            Expr::UnaryOp(u) => u.t.clone(),
            Expr::Call(c) => c.t.clone(),
            Expr::Lambda(l) => l.t.clone(),
            Expr::TypeAsc(t) => if t.spec.kind.is_force_cast() {
                t.spec.spec_t.clone()
            } else {
                t.expr.t()
            },
            Expr::Def(_) | Expr::ClassDef(_) | Expr::PatchDef(_) | Expr::ReDef(_) => TypeInfo::none(),
            Expr::Code(b) | Expr::Compound(b) => {
                let n = b.0.len();
                if n == 0 {
                    TypeInfo::failure()
                } else {
                    b.0[n - 1].t()
                }
            },
            Expr::Import(a) => a.t(),
            Expr::Dummy(_) => TypeInfo::failure(),
        }
    }

    /// The kind of node, as named in diagnostics.
    pub fn name(&self) -> (s: &'static str)
        ensures
            s@ == match *self {
                Expr::Literal(_) => "literal"@,
                Expr::Accessor(_) => "accessor"@,
                Expr::List(_) => "array"@,
                Expr::Tuple(_) => "tuple"@,
                Expr::Dict(_) => "dict"@,
                Expr::SetLit(_) => "set"@,
                Expr::Record(_) => "record"@,
                Expr::BinOp(_) => "binary operator call"@,
                Expr::UnaryOp(_) => "unary operator call"@,
                Expr::Call(_) => "call"@,
                Expr::Lambda(_) => "lambda"@,
                Expr::TypeAsc(_) => "type ascription"@,
                Expr::Def(_) => "definition"@,
                Expr::Code(_) => "code"@,
                Expr::Compound(_) => "compound expression"@,
                Expr::Import(_) => "import"@,
                Expr::ClassDef(_) => "class definition"@,
                Expr::PatchDef(_) => "patch definition"@,
                Expr::ReDef(_) => "re-definition"@,
                Expr::Dummy(_) => "dummy"@,
            },
    {
        match self {
            Expr::Literal(_) => "literal",
            Expr::Accessor(_) => "accessor",
            Expr::List(_) => "array",
            Expr::Tuple(_) => "tuple",
            Expr::Dict(_) => "dict",
            Expr::SetLit(_) => "set",
            Expr::Record(_) => "record",
            Expr::BinOp(_) => "binary operator call",
            Expr::UnaryOp(_) => "unary operator call",
            Expr::Call(_) => "call",
            Expr::Lambda(_) => "lambda",
            Expr::TypeAsc(_) => "type ascription",
            Expr::Def(_) => "definition",
            Expr::Code(_) => "code",
            Expr::Compound(_) => "compound expression",
            Expr::Import(_) => "import",
            Expr::ClassDef(_) => "class definition",
            Expr::PatchDef(_) => "patch definition",
            Expr::ReDef(_) => "re-definition",
            Expr::Dummy(_) => "dummy",
        }
    }

    pub fn is_type_asc(&self) -> (b: bool)
        ensures
            b == (*self is TypeAsc),
    {
        matches!(self, Expr::TypeAsc(_))
    }
}

} // verus!

verus! {

impl Literal {
    pub fn is(&self, kind: TokenKind) -> (b: bool)
        ensures
            b == (self.token.kind == kind),
    {
        self.token.is(kind)
    }

    pub fn is_doc_comment(&self) -> (b: bool)
        ensures
            b == (self.token.kind == TokenKind::DocComment),
    {
        self.token.is(TokenKind::DocComment)
    }
}

impl ListWithLength {
    /// `[elem; _]`: the length is not given.
    pub fn is_unsized(&self) -> (b: bool)
        ensures
            b == (self.len is None),
    {
        self.len.is_none()
    }
}

impl List {
    pub fn is_unsized(&self) -> (b: bool)
        ensures
            b == (*self matches List::WithLength(w) && w.len is None),
    {
        match self {
            List::WithLength(w) => w.is_unsized(),
            _ => false,
        }
    }
}

/// An accessor, possibly under type ascriptions.
pub open spec fn is_acc_of(e: Expr) -> bool
    decreases e,
{
    match e {
        Expr::Accessor(_) => true,
        Expr::TypeAsc(t) => is_acc_of(*t.expr),
        _ => false,
    }
}

/// A literal, accessor, call or operator application, possibly under type
/// ascriptions.
pub open spec fn should_wrap_of(e: Expr) -> bool
    decreases e,
{
    match e {
        Expr::Literal(_) | Expr::Accessor(_) | Expr::Call(_) | Expr::BinOp(_) | Expr::UnaryOp(
            _,
        ) => true,
        Expr::TypeAsc(t) => should_wrap_of(*t.expr),
        _ => false,
    }
}

/// What the type checker knows of the name an expression accesses.
pub open spec fn var_info_of(e: Expr) -> Option<VarInfo>
    decreases e,
{
    match e {
        Expr::Accessor(a) => Some(a.spec_var_info()),
        Expr::TypeAsc(t) => var_info_of(*t.expr),
        _ => None,
    }
}

/// The written form of an ascription's operator.
pub open spec fn ascription_op_view(k: AscriptionKind) -> Seq<char> {
    match k {
        AscriptionKind::TypeOf => ":"@,
        AscriptionKind::SubtypeOf => "<:"@,
        AscriptionKind::SupertypeOf => ":>"@,
        AscriptionKind::AsCast => "as"@,
    }
}

fn ascription_op(k: AscriptionKind) -> (s: &'static str)
    ensures
        s@ == ascription_op_view(k),
{
    match k {
        AscriptionKind::TypeOf => ":",
        AscriptionKind::SubtypeOf => "<:",
        AscriptionKind::SupertypeOf => ":>",
        AscriptionKind::AsCast => "as",
    }
}

/// How an access made of names, attributes and type ascriptions is written
/// without types: `(obj).name` for an attribute, `expr: T` for an
/// ascription. `None` for any other expression.
pub open spec fn access_display_of(e: Expr) -> Option<Seq<char>>
    decreases e,
{
    match e {
        Expr::Accessor(Accessor::Ident(i)) => Some(i.spec_display()),
        Expr::Accessor(Accessor::Attr(at)) => match access_display_of(*at.obj) {
            Some(o) => Some("("@ + o + ")"@ + at.ident.spec_display()),
            None => None,
        },
        Expr::TypeAsc(t) => match access_display_of(*t.expr) {
            Some(d) => Some(d + ascription_op_view(t.spec.kind) + " "@ + t.spec.t_spec@),
            None => None,
        },
        _ => None,
    }
}

/// The type of the receiver of an attribute access.
pub open spec fn receiver_t_of(e: Expr) -> Option<TypeView>
    decreases e,
{
    match e {
        Expr::Accessor(Accessor::Attr(at)) => Some(t_of(*at.obj)),
        Expr::TypeAsc(t) => receiver_t_of(*t.expr),
        _ => None,
    }
}

/// The last name of an accessor.
pub open spec fn last_name_of(e: Expr) -> Option<String>
    decreases e,
{
    match e {
        Expr::Accessor(Accessor::Ident(i)) => Some(i.name),
        Expr::Accessor(Accessor::Attr(at)) => Some(at.ident.name),
        Expr::TypeAsc(t) => last_name_of(*t.expr),
        _ => None,
    }
}

/// An access to an API declared in a `.d.er` file.
pub open spec fn is_py_api_of(e: Expr) -> bool
    decreases e,
{
    match e {
        Expr::Accessor(a) => a.spec_var_info().py_name is Some,
        Expr::TypeAsc(t) => is_py_api_of(*t.expr),
        _ => false,
    }
}

/// The view of an optional reference.
pub open spec fn opt_ref<T>(o: Option<&T>) -> Option<T> {
    match o {
        Some(x) => Some(*x),
        None => None,
    }
}

impl Expr {
    pub fn is_doc_comment(&self) -> (b: bool)
        ensures
            b == (*self matches Expr::Literal(l) && l.token.kind == TokenKind::DocComment),
    {
        match self {
            Expr::Literal(l) => l.is_doc_comment(),
            _ => false,
        }
    }

    pub fn is_acc(&self) -> (b: bool)
        ensures
            b == is_acc_of(*self),
        decreases *self,
    {
        match self {
            Expr::Accessor(_) => true,
            Expr::TypeAsc(t) => t.expr.is_acc(),
            _ => false,
        }
    }

    /// Whether the expression is put in parentheses when it is the receiver
    /// of a method call in the generated code.
    pub fn should_wrap(&self) -> (b: bool)
        ensures
            b == should_wrap_of(*self),
        decreases *self,
    {
        match self {
            Expr::Literal(_) | Expr::Accessor(_) | Expr::Call(_) | Expr::BinOp(_)
            | Expr::UnaryOp(_) => true,
            Expr::TypeAsc(t) => t.expr.should_wrap(),
            _ => false,
        }
    }

    /// Whether the expression must be parenthesized to be an operand:
    /// operator applications, lambdas, type ascriptions, and tuples and
    /// calls written without parentheses.
    pub fn need_to_be_closed(&self) -> (b: bool)
        ensures
            b == match *self {
                Expr::BinOp(_) | Expr::UnaryOp(_) | Expr::Lambda(_) | Expr::TypeAsc(_) => true,
                Expr::Tuple(Tuple::Normal(t)) => t.elems.paren is None,
                Expr::Call(c) => c.args.paren is None,
                _ => false,
            },
    {
        match self {
            Expr::BinOp(_) | Expr::UnaryOp(_) | Expr::Lambda(_) | Expr::TypeAsc(_) => true,
            Expr::Tuple(Tuple::Normal(t)) => t.elems.paren.is_none(),
            Expr::Call(c) => c.args.paren.is_none(),
            _ => false,
        }
    }

    /// The access written without types (see `access_display_of`).
    pub fn access_display(&self) -> (s: Option<String>)
        ensures
            match s {
                Some(x) => access_display_of(*self) == Some(x@),
                None => access_display_of(*self) is None,
            },
        decreases *self,
    {
        match self {
            Expr::Accessor(Accessor::Ident(i)) => Some(i.to_string_notype()),
            Expr::Accessor(Accessor::Attr(at)) => match at.obj.access_display() {
                Some(o) => {
                    let mut r = String::from_str("(");
                    r.append(o.as_str());
                    r.append(")");
                    let id = at.ident.to_string_notype();
                    r.append(id.as_str());
                    Some(r)
                },
                None => None,
            },
            Expr::TypeAsc(t) => match t.expr.access_display() {
                Some(d) => {
                    let mut r = d;
                    r.append(ascription_op(t.spec.kind));
                    r.append(" ");
                    r.append(t.spec.t_spec.as_str());
                    Some(r)
                },
                None => None,
            },
            _ => None,
        }
    }

    pub fn var_info(&self) -> (v: Option<&VarInfo>)
        ensures
            opt_ref(v) == var_info_of(*self),
        decreases *self,
    {
        match self {
            Expr::Accessor(a) => Some(a.var_info()),
            Expr::TypeAsc(t) => t.expr.var_info(),
            _ => None,
        }
    }

    /// The type of the receiver, for an attribute access.
    pub fn receiver_t(&self) -> (t: Option<TypeInfo>)
        ensures
            match t {
                Some(ty) => receiver_t_of(*self) == Some(ty@),
                None => receiver_t_of(*self) is None,
            },
        decreases *self,
    {
        match self {
            Expr::Accessor(Accessor::Attr(at)) => Some(at.obj.t()),
            Expr::TypeAsc(t) => t.expr.receiver_t(),
            _ => None,
        }
    }

    pub fn last_name(&self) -> (n: Option<&String>)
        ensures
            opt_ref(n) == last_name_of(*self),
        decreases *self,
    {
        match self {
            Expr::Accessor(a) => Some(a.last_name()),
            Expr::TypeAsc(t) => t.expr.last_name(),
            _ => None,
        }
    }

    pub fn is_py_api(&self) -> (b: bool)
        ensures
            b == is_py_api_of(*self),
        decreases *self,
    {
        match self {
            Expr::Accessor(a) => a.is_py_api(),
            Expr::TypeAsc(t) => t.expr.is_py_api(),
            _ => false,
        }
    }
}

} // verus!

verus! {

/// How an accessor is shown in diagnostics: operator methods by their
/// operator, an attribute access as its receiver (or, if the receiver is
/// not an accessor, the receiver's type), a dot and the attribute.
pub open spec fn acc_show(a: Accessor) -> Seq<char>
    decreases a,
{
    match a {
        Accessor::Ident(i) => readable(i.name@),
        Accessor::Attr(at) => (match show_acc_of(*at.obj) {
            Some(s) => s,
            None => t_of(*at.obj).name,
        }) + "."@ + readable(at.ident.name@),
    }
}

/// How an accessor expression (possibly under type ascriptions) is shown.
pub open spec fn show_acc_of(e: Expr) -> Option<Seq<char>>
    decreases e,
{
    match e {
        Expr::Accessor(a) => Some(acc_show(a)),
        Expr::TypeAsc(t) => show_acc_of(*t.expr),
        _ => None,
    }
}

/// The qualified name of the object an accessor denotes: that of a name,
/// or the receiver's followed by a dot and the attribute's (its qualified
/// name if it has one).
pub open spec fn acc_qual_name(a: Accessor) -> Option<Seq<char>>
    decreases a,
{
    match a {
        Accessor::Ident(i) => opt_string_view(i.qual_name),
        Accessor::Attr(at) => match qual_name_of(*at.obj) {
            Some(oq) => Some(oq + "."@ + match at.ident.qual_name {
                Some(q) => q@,
                None => at.ident.name@,
            }),
            None => None,
        },
    }
}

/// The qualified name of what an accessor expression denotes.
pub open spec fn qual_name_of(e: Expr) -> Option<Seq<char>>
    decreases e,
{
    match e {
        Expr::Accessor(a) => acc_qual_name(a),
        Expr::TypeAsc(t) => qual_name_of(*t.expr),
        _ => None,
    }
}

impl Accessor {
    /// The accessor as shown in diagnostics.
    pub fn show(&self) -> (s: String)
        ensures
            s@ == acc_show(*self),
        decreases *self,
    {
        match self {
            Accessor::Ident(i) => String::from_str(readable_name(i.name.as_str())),
            Accessor::Attr(at) => {
                let mut s = match at.obj.show_acc() {
                    Some(s) => s,
                    None => at.obj.t().name,
                };
                s.append(".");
                s.append(readable_name(at.ident.name.as_str()));
                s
            },
        }
    }

    /// The qualified name of the object the accessor denotes.
    pub fn qual_name(&self) -> (q: Option<String>)
        ensures
            opt_string_view(q) == acc_qual_name(*self),
        decreases *self,
    {
        match self {
            Accessor::Ident(i) => clone_opt_string(&i.qual_name),
            Accessor::Attr(at) => match at.obj.qual_name() {
                Some(oq) => {
                    let mut q = oq;
                    q.append(".");
                    match &at.ident.qual_name {
                        Some(iq) => q.append(iq.as_str()),
                        None => q.append(at.ident.name.as_str()),
                    }
                    Some(q)
                },
                None => None,
            },
        }
    }
}

impl Expr {
    /// The expression as shown in diagnostics, if it is an accessor.
    pub fn show_acc(&self) -> (s: Option<String>)
        ensures
            opt_string_view(s) == show_acc_of(*self),
        decreases *self,
    {
        match self {
            Expr::Accessor(a) => Some(a.show()),
            Expr::TypeAsc(t) => t.expr.show_acc(),
            _ => None,
        }
    }

    /// The qualified name of what the expression denotes, if it is an
    /// accessor.
    pub fn qual_name(&self) -> (q: Option<String>)
        ensures
            opt_string_view(q) == qual_name_of(*self),
        decreases *self,
    {
        match self {
            Expr::Accessor(a) => a.qual_name(),
            Expr::TypeAsc(t) => t.expr.qual_name(),
            _ => None,
        }
    }
}

impl Module {
    /// The first definition of `name` at the top level.
    pub fn get_attr(&self, name: &str) -> (d: Option<&Def>)
        ensures
            has_def(self.0@, name@) ==> exists|i: int|
                is_first_def(self.0@, name@, i) && (self.0@[i] matches Expr::Def(od) && d == Some(&od)),
            !has_def(self.0@, name@) ==> d is None,
    {
        match position_of_def(&self.0, name) {
            Some(i) => match &self.0[i] {
                Expr::Def(def) => Some(def),
                _ => None,
            },
            None => None,
        }
    }
}

/// The definitions of all method blocks, block after block.
pub open spec fn all_method_exprs(ms: Seq<Methods>) -> Seq<Expr>
    decreases ms.len(),
{
    if ms.len() == 0 {
        Seq::empty()
    } else {
        ms[0].defs.0@ + all_method_exprs(ms.skip(1))
    }
}

/// The expressions behind a sequence of references.
pub open spec fn derefs<T>(s: Seq<&T>) -> Seq<T> {
    s.map_values(|r: &T| *r)
}

fn collect_methods<'a>(ms: &'a Vec<Methods>) -> (r: Vec<&'a Expr>)
    ensures
        derefs(r@) == all_method_exprs(ms@),
{
    let mut r: Vec<&Expr> = Vec::new();
    let mut i: usize = 0;
    assert(ms@.skip(0) == ms@);
    while i < ms.len()
        invariant
            i <= ms@.len(),
            derefs(r@) + all_method_exprs(ms@.skip(i as int)) == all_method_exprs(ms@),
        decreases ms.len() - i,
    {
        let defs = &ms[i].defs.0;
        let ghost before = r@;
        let mut j: usize = 0;
        while j < defs.len()
            invariant
                j <= defs@.len(),
                derefs(r@) == derefs(before) + defs@.take(j as int),
            decreases defs.len() - j,
        {
            let ghost prev = r@;
            r.push(&defs[j]);
            proof {
                assert(derefs(r@) =~= derefs(prev).push(defs@[j as int]));
                assert(defs@.take(j as int + 1) =~= defs@.take(j as int).push(defs@[j as int]));
                assert(derefs(r@) =~= derefs(before) + defs@.take(j as int + 1));
            }
            j += 1;
        }
        proof {
            let rest = ms@.skip(i as int);
            assert(rest[0] == ms@[i as int]);
            assert(rest.skip(1) == ms@.skip(i as int + 1));
            assert(defs@.take(j as int) == defs@);
            assert(derefs(r@) + all_method_exprs(ms@.skip(i as int + 1)) == all_method_exprs(ms@));
        }
        i += 1;
    }
    proof {
        assert(ms@.skip(i as int) =~= Seq::<Methods>::empty());
        assert(derefs(r@) + Seq::<Expr>::empty() == derefs(r@));
    }
    r
}

impl ClassDef {
    /// The definitions of all method blocks of the class, in order.
    pub fn all_methods(&self) -> (r: Vec<&Expr>)
        ensures
            derefs(r@) == all_method_exprs(self.methods_list@),
    {
        collect_methods(&self.methods_list)
    }

    /// The definitions of all the given method blocks, in order.
    pub fn get_all_methods(methods_list: &Vec<Methods>) -> (r: Vec<&Expr>)
        ensures
            derefs(r@) == all_method_exprs(methods_list@),
    {
        collect_methods(methods_list)
    }

    /// Joins the definitions of all the given method blocks into one block.
    pub fn take_all_methods(methods_list: Vec<Methods>) -> (b: Block)
        ensures
            b.0@ == all_method_exprs(methods_list@),
    {
        let mut ms = methods_list;
        let ghost orig = ms@;
        let mut joined = Block::empty();
        while ms.len() > 0
            invariant
                joined.0@ + all_method_exprs(ms@) == all_method_exprs(orig),
            decreases ms.len(),
        {
            let ghost before = ms@;
            let m = ms.remove(0);
            proof {
                assert(before.skip(1) == ms@);
                assert(before[0] == m);
            }
            joined.extend(m.defs);
        }
        proof {
            assert(joined.0@ + Seq::<Expr>::empty() == joined.0@);
        }
        joined
    }
}

impl Signature {
    /// The parameters with default values, for a subroutine.
    pub fn default_params(&self) -> (d: Option<&Vec<DefaultParamSignature>>)
        ensures
            match *self {
                Signature::Subr(s) => d == Some(&s.params.defaults),
                _ => d is None,
            },
    {
        match self {
            Signature::Subr(s) => Some(&s.params.defaults),
            _ => None,
        }
    }

    /// The outer names a subroutine's body refers to; none for other
    /// signatures.
    pub fn captured_names(&self) -> (c: &[Identifier])
        ensures
            match *self {
                Signature::Subr(s) => c@ == s.captured_names@,
                _ => c@.len() == 0,
            },
    {
        match self {
            Signature::Subr(s) => s.captured_names.as_slice(),
            _ => &[],
        }
    }
}

/// The parameters named by a parameter list, except `**kwargs`: the
/// non-default ones, `*args`, then those with defaults.
pub open spec fn sigs_of(p: Params) -> Seq<NonDefaultParamSignature> {
    p.non_defaults@ + boxed_seq(p.var_params) + p.defaults@.map_values(
        |d: DefaultParamSignature| d.sig,
    )
}

/// The parameter in an optional box, as a sequence of at most one.
pub open spec fn boxed_seq(o: Option<Box<NonDefaultParamSignature>>) -> Seq<NonDefaultParamSignature> {
    match o {
        Some(v) => seq![*v],
        None => Seq::empty(),
    }
}

impl Params {
    pub fn sigs(&self) -> (r: Vec<&NonDefaultParamSignature>)
        ensures
            derefs(r@) == sigs_of(*self),
    {
        let mut r: Vec<&NonDefaultParamSignature> = Vec::new();
        let mut i: usize = 0;
        while i < self.non_defaults.len()
            invariant
                i <= self.non_defaults@.len(),
                derefs(r@) == self.non_defaults@.take(i as int),
            decreases self.non_defaults.len() - i,
        {
            r.push(&self.non_defaults[i]);
            proof {
                assert(self.non_defaults@.take(i as int + 1) == self.non_defaults@.take(i as int).push(
                    self.non_defaults@[i as int],
                ));
                assert(derefs(r@) == self.non_defaults@.take(i as int + 1));
            }
            i += 1;
        }
        let ghost front = derefs(r@) + boxed_seq(self.var_params);
        match &self.var_params {
            Some(v) => {
                r.push(&**v);
                assert(derefs(r@) == front);
            },
            None => {
                assert(derefs(r@) == front);
            },
        }
        let ghost ds = self.defaults@.map_values(|d: DefaultParamSignature| d.sig);
        let mut k: usize = 0;
        while k < self.defaults.len()
            invariant
                k <= self.defaults@.len(),
                ds == self.defaults@.map_values(|d: DefaultParamSignature| d.sig),
                derefs(r@) == front + ds.take(k as int),
            decreases self.defaults.len() - k,
        {
            let ghost prev = r@;
            r.push(&self.defaults[k].sig);
            proof {
                assert(derefs(r@) =~= derefs(prev).push(ds[k as int]));
                assert(ds.take(k as int + 1) =~= ds.take(k as int).push(ds[k as int]));
                assert(derefs(r@) =~= front + ds.take(k as int + 1));
            }
            k += 1;
        }
        proof {
            assert(ds.take(k as int) == ds);
            assert(self.non_defaults@.take(self.non_defaults@.len() as int) == self.non_defaults@);
        }
        r
    }

    /// The parts of the parameter list, guards left out.
    pub fn ref_deconstruct(&self) -> (r: (
        &Vec<NonDefaultParamSignature>,
        &Option<Box<NonDefaultParamSignature>>,
        &Vec<DefaultParamSignature>,
        &Option<Box<NonDefaultParamSignature>>,
        &Option<(Token, Token)>,
    ))
        ensures
            *r.0 == self.non_defaults,
            *r.1 == self.var_params,
            *r.2 == self.defaults,
            *r.3 == self.kw_var_params,
            *r.4 == self.parens,
    {
        (&self.non_defaults, &self.var_params, &self.defaults, &self.kw_var_params, &self.parens)
    }

    /// Takes the parameter list apart, dropping the guards.
    pub fn deconstruct(self) -> (r: (
        Vec<NonDefaultParamSignature>,
        Option<Box<NonDefaultParamSignature>>,
        Vec<DefaultParamSignature>,
        Option<Box<NonDefaultParamSignature>>,
        Option<(Token, Token)>,
    ))
        ensures
            r == (self.non_defaults, self.var_params, self.defaults, self.kw_var_params, self.parens),
    {
        (self.non_defaults, self.var_params, self.defaults, self.kw_var_params, self.parens)
    }
}

} // verus!

verus! {

/// What a definition defines, judged by the call its body starts with.
#[derive(Debug, Clone, Copy, PartialEq, Eq, Structural)]
pub enum DefKind {
    Class,
    Inherit,
    Trait,
    Subsume,
    StructuralTrait,
    ErgImport,
    PyImport,
    RsImport,
    Patch,
    InlineModule,
    /// type aliases included
    Other,
}

/// The calls that the compiler treats specially.
#[derive(Debug, Clone, Copy, PartialEq, Eq, Structural)]
pub enum OperationKind {
    Import,
    PyImport,
    RsImport,
    Del,
    Assert,
    Class,
    Inherit,
    Trait,
    Subsume,
    Return,
    Yield,
    Cast,
}

/// The first keyword argument named `key`.
pub open spec fn kw_lookup(kws: Seq<KwArg>, key: Seq<char>) -> Option<Expr>
    decreases kws.len(),
{
    if kws.len() == 0 {
        None
    } else if kws[0].keyword.content@ == key {
        Some(kws[0].expr)
    } else {
        kw_lookup(kws.skip(1), key)
    }
}

/// The first positional argument, else the first keyword argument named
/// `key`.
pub open spec fn left_or_key_of(args: Args, key: Seq<char>) -> Option<Expr> {
    if args.pos_args@.len() > 0 {
        Some(args.pos_args@[0].expr)
    } else {
        kw_lookup(args.kw_args@, key)
    }
}

/// `kw_lookup` finds the first keyword argument named `key`, and nothing
/// when there is none.
proof fn lemma_kw_lookup(kws: Seq<KwArg>, key: Seq<char>)
    ensures
        forall|i: int| is_first_kw(kws, key, i) ==> kw_lookup(kws, key) == Some(kws[i].expr),
        !has_kw(kws, key) ==> kw_lookup(kws, key) is None,
    decreases kws.len(),
{
    if kws.len() > 0 {
        let rest = kws.skip(1);
        lemma_kw_lookup(rest, key);
        assert forall|i: int| is_first_kw(kws, key, i) implies kw_lookup(kws, key) == Some(
            kws[i].expr,
        ) by {
            if i > 0 {
                assert(kws[0].keyword.content@ != key);
                assert(is_first_kw(rest, key, i - 1));
            }
        }
        if !has_kw(kws, key) {
            assert(kws[0].keyword.content@ != key);
            assert forall|j: int| 0 <= j < rest.len() implies rest[j].keyword.content@ != key by {
                assert(rest[j] == kws[j + 1]);
            }
        }
    }
}

impl Args {
    /// `get_left_or_key`, stated by `left_or_key_of`.
    fn left_or_key(&self, key: &str) -> (e: Option<&Expr>)
        ensures
            opt_expr(e) == left_or_key_of(*self, key@),
    {
        proof {
            lemma_kw_lookup(self.kw_args@, key@);
        }
        self.get_left_or_key(key)
    }
}

/// Whether an expression is shown as `name`.
pub open spec fn shows_as(e: Expr, name: Seq<char>) -> bool {
    show_acc_of(e) == Some(name)
}

/// What a definition whose body starts with the call `c` defines.
pub open spec fn call_def_kind(c: Call) -> DefKind {
    let o = *c.obj;
    if shows_as(o, "Class"@) {
        DefKind::Class
    } else if shows_as(o, "Inherit"@) {
        DefKind::Inherit
    } else if shows_as(o, "Trait"@) {
        DefKind::Trait
    } else if shows_as(o, "Subsume"@) {
        DefKind::Subsume
    } else if shows_as(o, "Inheritable"@) {
        match left_or_key_of(c.args, "Class"@) {
            Some(Expr::Call(inner)) => if shows_as(*inner.obj, "Class"@) {
                DefKind::Class
            } else if shows_as(*inner.obj, "Inherit"@) {
                DefKind::Inherit
            } else {
                DefKind::Other
            },
            _ => DefKind::Other,
        }
    } else if shows_as(o, "Patch"@) {
        DefKind::Patch
    } else if shows_as(o, "import"@) {
        DefKind::ErgImport
    } else if shows_as(o, "pyimport"@) || shows_as(o, "__import__"@) {
        DefKind::PyImport
    } else if shows_as(o, "rsimport"@) {
        DefKind::RsImport
    } else {
        DefKind::Other
    }
}

/// What a definition defines.
pub open spec fn def_kind_of(d: Def) -> DefKind {
    if d.body.block.0@.len() > 0 {
        match d.body.block.0@[0] {
            Expr::Call(c) => call_def_kind(c),
            _ => DefKind::Other,
        }
    } else {
        DefKind::Other
    }
}

/// The record of base attributes of a class or trait definition
/// (`Class(base)`, `Trait(base)`).
pub open spec fn def_base_of(d: Def) -> Option<Record> {
    if d.body.block.0@.len() > 0 {
        match d.body.block.0@[0] {
            Expr::Call(c) => if shows_as(*c.obj, "Class"@) || shows_as(*c.obj, "Trait"@) {
                match left_or_key_of(c.args, "Base"@) {
                    Some(Expr::Record(r)) => Some(r),
                    _ => None,
                }
            } else {
                None
            },
            _ => None,
        }
    } else {
        None
    }
}

/// Whether an optional shown name equals `lit`.
fn shown_is(s: &Option<String>, lit: &str) -> (b: bool)
    ensures
        b == (opt_string_view(*s) == Some(lit@)),
{
    match s {
        Some(x) => crate::strutil::str_eq(x.as_str(), lit),
        None => false,
    }
}

impl Def {
    /// What the definition defines.
    pub fn def_kind(&self) -> (k: DefKind)
        ensures
            k == def_kind_of(*self),
    {
        match self.body.block.first() {
            Some(Expr::Call(c)) => {
                let n = c.obj.show_acc();
                if shown_is(&n, "Class") {
                    DefKind::Class
                } else if shown_is(&n, "Inherit") {
                    DefKind::Inherit
                } else if shown_is(&n, "Trait") {
                    DefKind::Trait
                } else if shown_is(&n, "Subsume") {
                    DefKind::Subsume
                } else if shown_is(&n, "Inheritable") {
                    match c.args.left_or_key("Class") {
                        Some(Expr::Call(inner)) => {
                            let m = inner.obj.show_acc();
                            if shown_is(&m, "Class") {
                                DefKind::Class
                            } else if shown_is(&m, "Inherit") {
                                DefKind::Inherit
                            } else {
                                DefKind::Other
                            }
                        },
                        _ => DefKind::Other,
                    }
                } else if shown_is(&n, "Patch") {
                    DefKind::Patch
                } else if shown_is(&n, "import") {
                    DefKind::ErgImport
                } else if shown_is(&n, "pyimport") || shown_is(&n, "__import__") {
                    DefKind::PyImport
                } else if shown_is(&n, "rsimport") {
                    DefKind::RsImport
                } else {
                    DefKind::Other
                }
            },
            _ => DefKind::Other,
        }
    }

    /// The record of base attributes of a class or trait definition.
    pub fn get_base(&self) -> (r: Option<&Record>)
        ensures
            opt_ref(r) == def_base_of(*self),
    {
        match self.body.block.first() {
            Some(Expr::Call(c)) => {
                let n = c.obj.show_acc();
                if shown_is(&n, "Class") || shown_is(&n, "Trait") {
                    match c.args.left_or_key("Base") {
                        Some(Expr::Record(r)) => Some(r),
                        _ => None,
                    }
                } else {
                    None
                }
            },
            _ => None,
        }
    }
}

/// Whether the attribute called is named `name`.
pub open spec fn attr_named(c: Call, name: Seq<char>) -> bool {
    c.attr_name matches Some(i) && i.name@ == name
}

/// The special operation a call performs, judged by how its callee is
/// shown.
pub open spec fn additional_operation_of(c: Call) -> Option<OperationKind> {
    let o = *c.obj;
    if show_acc_of(o) is None {
        None
    } else if shows_as(o, "import"@) {
        Some(OperationKind::Import)
    } else if shows_as(o, "pyimport"@) || shows_as(o, "py"@) || shows_as(o, "__import__"@) {
        Some(OperationKind::PyImport)
    } else if shows_as(o, "rsimport"@) {
        Some(OperationKind::RsImport)
    } else if shows_as(o, "Del"@) {
        Some(OperationKind::Del)
    } else if shows_as(o, "assert"@) {
        Some(OperationKind::Assert)
    } else if qual_name_of(o) == Some("typing"@) && attr_named(c, "cast"@) {
        Some(OperationKind::Cast)
    } else if t_of(o).is_callable {
        if attr_named(c, "return"@) {
            Some(OperationKind::Return)
        } else if attr_named(c, "yield"@) {
            Some(OperationKind::Yield)
        } else {
            None
        }
    } else {
        None
    }
}

/// Whether the attribute called is named `name`.
fn attr_is(c: &Call, name: &str) -> (b: bool)
    ensures
        b == attr_named(*c, name@),
{
    match &c.attr_name {
        Some(i) => crate::strutil::str_eq(i.name.as_str(), name),
        None => false,
    }
}

impl Call {
    /// The special operation the call performs, if any.
    pub fn additional_operation(&self) -> (k: Option<OperationKind>)
        ensures
            k == additional_operation_of(*self),
    {
        let n = self.obj.show_acc();
        if n.is_none() {
            return None;
        }
        if shown_is(&n, "import") {
            Some(OperationKind::Import)
        } else if shown_is(&n, "pyimport") || shown_is(&n, "py") || shown_is(&n, "__import__") {
            Some(OperationKind::PyImport)
        } else if shown_is(&n, "rsimport") {
            Some(OperationKind::RsImport)
        } else if shown_is(&n, "Del") {
            Some(OperationKind::Del)
        } else if shown_is(&n, "assert") {
            Some(OperationKind::Assert)
        } else {
            let q = self.obj.qual_name();
            if shown_is(&q, "typing") && attr_is(self, "cast") {
                return Some(OperationKind::Cast);
            }
            let t = self.obj.t();
            if t.is_callable {
                if attr_is(self, "return") {
                    Some(OperationKind::Return)
                } else if attr_is(self, "yield") {
                    Some(OperationKind::Yield)
                } else {
                    None
                }
            } else {
                None
            }
        }
    }
}

} // verus!

verus! {

impl VarInfo {
    /// What is known of a name that the type checker has not seen: type
    /// `Failure`, private, in the placeholder namespace `<dummy>`.
    pub fn const_default_private() -> (v: Self)
        ensures
            v.t@ == plain_view("Failure"@),
            !v.is_public,
            v.def_namespace@ == "<dummy>"@,
            !v.is_parameter,
            v.py_name is None,
    {
        VarInfo {
            t: TypeInfo::failure(),
            is_public: false,
            def_namespace: String::from_str("<dummy>"),
            is_parameter: false,
            py_name: None,
        }
    }

    /// As `const_default_private`, but public.
    pub fn const_default_public() -> (v: Self)
        ensures
            v.t@ == plain_view("Failure"@),
            v.is_public,
            v.def_namespace@ == "<dummy>"@,
            !v.is_parameter,
            v.py_name is None,
    {
        VarInfo {
            t: TypeInfo::failure(),
            is_public: true,
            def_namespace: String::from_str("<dummy>"),
            is_parameter: false,
            py_name: None,
        }
    }
}

impl Identifier {
    /// `.name`, not yet checked.
    pub fn public(name: &str) -> (i: Self)
        ensures
            i.vis == VisModifierSpec::Public,
            i.name@ == name@,
            i.qual_name is None,
            i.vi.is_public,
            i.vi.t@ == plain_view("Failure"@),
    {
        Identifier {
            vis: VisModifierSpec::Public,
            name: String::from_str(name),
            qual_name: None,
            vi: VarInfo::const_default_public(),
        }
    }

    /// `.name` for a name known in advance.
    pub fn static_public(name: &'static str) -> (i: Self)
        ensures
            i.vis == VisModifierSpec::Public,
            i.name@ == name@,
            i.qual_name is None,
            i.vi.is_public,
            i.vi.t@ == plain_view("Failure"@),
    {
        Identifier::public(name)
    }

    /// `name`, not yet checked.
    pub fn private(name: &'static str) -> (i: Self)
        ensures
            i.vis == VisModifierSpec::Private,
            i.name@ == name@,
            i.qual_name is None,
            !i.vi.is_public,
            i.vi.t@ == plain_view("Failure"@),
    {
        Identifier {
            vis: VisModifierSpec::Private,
            name: String::from_str(name),
            qual_name: None,
            vi: VarInfo::const_default_private(),
        }
    }

    /// A call of the named subroutine; `t` is the type of what it returns.
    pub fn call(self, args: Args, t: TypeInfo) -> (c: Call)
        ensures
            c == (Call {
                obj: Box::new(Expr::Accessor(Accessor::Ident(self))),
                attr_name: None,
                args,
                t,
                constructs_effectful_instance: false,
            }),
    {
        Call::new(Expr::Accessor(Accessor::Ident(self)), None, args, t)
    }
}

impl Accessor {
    /// The public name written by the token `name`.
    pub fn public(name: Token, vi: VarInfo) -> (a: Self)
        ensures
            a == Accessor::Ident(
                Identifier { vis: VisModifierSpec::Public, name: name.content, qual_name: None, vi },
            ),
    {
        Accessor::Ident(Identifier::new(VisModifierSpec::Public, name.content, None, vi))
    }

    /// The private name written by the token `name`.
    pub fn private(name: Token, vi: VarInfo) -> (a: Self)
        ensures
            a == Accessor::Ident(
                Identifier { vis: VisModifierSpec::Private, name: name.content, qual_name: None, vi },
            ),
    {
        Accessor::Ident(Identifier::new(VisModifierSpec::Private, name.content, None, vi))
    }
}

impl Literal {
    /// A literal written by `token` whose value has type `t`.
    pub fn new(token: Token, t: TypeInfo) -> (l: Self)
        ensures
            l == (Literal { token, t }),
    {
        Literal { token, t }
    }
}

impl PosArg {
    pub fn new(expr: Expr) -> (p: Self)
        ensures
            p == (PosArg { expr }),
    {
        PosArg { expr }
    }
}

impl KwArg {
    pub fn new(keyword: Token, expr: Expr) -> (k: Self)
        ensures
            k == (KwArg { keyword, expr }),
    {
        KwArg { keyword, expr }
    }
}

impl Attribute {
    pub fn new(obj: Expr, ident: Identifier) -> (a: Self)
        ensures
            a == (Attribute { obj: Box::new(obj), ident }),
    {
        Attribute { obj: Box::new(obj), ident }
    }
}

impl ListWithLength {
    pub fn new(t: TypeInfo, elem: Expr, len: Option<Expr>) -> (l: Self)
        ensures
            l.t == t,
            l.elem == Box::new(elem),
            l.len == match len {
                Some(n) => Some(Box::new(n)),
                None => None::<Box<Expr>>,
            },
    {
        let len = match len {
            Some(n) => Some(Box::new(n)),
            None => None,
        };
        ListWithLength { elem: Box::new(elem), len, t }
    }
}

impl NormalList {
    pub fn new(t: TypeInfo, elems: Args) -> (l: Self)
        ensures
            l == (NormalList { elems, t }),
    {
        NormalList { elems, t }
    }

    /// Appends an element.
    pub fn push(&mut self, elem: Expr)
        ensures
            final(self).elems.pos_args@ == old(self).elems.pos_args@.push(PosArg { expr: elem }),
            final(self).elems.var_args == old(self).elems.var_args,
            final(self).elems.kw_args == old(self).elems.kw_args,
            final(self).elems.kw_var == old(self).elems.kw_var,
            final(self).elems.paren == old(self).elems.paren,
            final(self).t == old(self).t,
    {
        self.elems.push_pos(PosArg::new(elem));
    }
}

impl KeyValue {
    pub fn new(key: Expr, value: Expr) -> (kv: Self)
        ensures
            kv == (KeyValue { key, value }),
    {
        KeyValue { key, value }
    }
}

impl GlobSignature {
    /// The glob import written as `token` (`*`), bringing `names` in, public
    /// or not, where `t` is the type of the imported module: the signature
    /// names a dummy identifier spelt like the token, of that type, recorded
    /// otherwise as by `VarInfo::const_default_private`.
    pub fn new(token: Token, is_public: bool, names: Vec<String>, t: TypeInfo) -> (g: Self)
        ensures
            g.dummy_ident.vis == VisModifierSpec::Auto,
            g.dummy_ident.name == token.content,
            g.dummy_ident.qual_name is None,
            g.dummy_ident.vi.t == t,
            !g.dummy_ident.vi.is_public,
            g.dummy_ident.vi.def_namespace@ == "<dummy>"@,
            !g.dummy_ident.vi.is_parameter,
            g.dummy_ident.vi.py_name is None,
            g.is_public == is_public,
            g.names == names,
    {
        let mut vi = VarInfo::const_default_private();
        vi.t = t;
        let dummy_ident = Identifier {
            vis: VisModifierSpec::Auto,
            name: token.content,
            qual_name: None,
            vi,
        };
        GlobSignature { dummy_ident, is_public, names }
    }
}

impl NormalTuple {
    /// The tuple of `elems`, of type `t` (the tuple of the elements' types,
    /// which the type checker builds).
    pub fn new(elems: Args, t: TypeInfo) -> (tu: Self)
        ensures
            tu == (NormalTuple { elems, t }),
    {
        NormalTuple { elems, t }
    }
}

impl NormalSet {
    /// The set of `elems`, of type `t`.
    pub fn new(elems: Args, t: TypeInfo) -> (st: Self)
        ensures
            st == (NormalSet { elems, t }),
    {
        NormalSet { elems, t }
    }
}

impl NormalDict {
    /// The dict of the pairs `kvs`, of type `t`.
    pub fn new(kvs: Vec<KeyValue>, t: TypeInfo) -> (d: Self)
        ensures
            d == (NormalDict { kvs, t }),
    {
        NormalDict { kvs, t }
    }
}

impl SetWithLength {
    pub fn new(t: TypeInfo, elem: Expr, len: Expr) -> (s: Self)
        ensures
            s == (SetWithLength { elem: Box::new(elem), len: Box::new(len), t }),
    {
        SetWithLength { elem: Box::new(elem), len: Box::new(len), t }
    }
}

impl Record {
    /// The record of the attributes `attrs`, of type `t` (the record type of
    /// the attributes' names and types, which the type checker builds).
    pub fn new(attrs: RecordAttrs, t: TypeInfo) -> (r: Self)
        ensures
            r == (Record { attrs, t }),
    {
        Record { attrs, t }
    }

    /// Adds the attribute `attr`; `t` is the record type with its field
    /// added, which the type checker builds.
    pub fn push(&mut self, attr: Def, t: TypeInfo)
        ensures
            final(self).attrs.0@ == old(self).attrs.0@.push(attr),
            final(self).t == t,
    {
        self.attrs.0.push(attr);
        self.t = t;
    }

    /// The first attribute named `name`.
    pub fn get(&self, name: &str) -> (d: Option<&Def>)
        ensures
            d matches Some(def) ==> exists|i: int|
                0 <= i < self.attrs.0@.len() && self.attrs.0@[i] == *def
                    && def.sig.spec_ident().name@ == name@ && forall|j: int|
                    0 <= j < i ==> self.attrs.0@[j].sig.spec_ident().name@ != name@,
            d is None ==> forall|j: int|
                0 <= j < self.attrs.0@.len() ==> self.attrs.0@[j].sig.spec_ident().name@ != name@,
    {
        self.attrs.get(name)
    }
}

impl BinOp {
    /// `lhs op rhs`, whose result has type `t`.
    pub fn new(op: Token, lhs: Expr, rhs: Expr, t: TypeInfo) -> (b: Self)
        ensures
            b == (BinOp { op, lhs: Box::new(lhs), rhs: Box::new(rhs), t }),
    {
        BinOp { op, lhs: Box::new(lhs), rhs: Box::new(rhs), t }
    }
}

impl UnaryOp {
    /// `op expr`, whose result has type `t`.
    pub fn new(op: Token, expr: Expr, t: TypeInfo) -> (u: Self)
        ensures
            u == (UnaryOp { op, expr: Box::new(expr), t }),
    {
        UnaryOp { op, expr: Box::new(expr), t }
    }
}

impl Call {
    /// `obj(args)` or `obj.attr_name(args)`, returning a value of type `t`;
    /// the call is not marked as constructing an effectful instance.
    pub fn new(obj: Expr, attr_name: Option<Identifier>, args: Args, t: TypeInfo) -> (c: Self)
        ensures
            c == (Call {
                obj: Box::new(obj),
                attr_name,
                args,
                t,
                constructs_effectful_instance: false,
            }),
    {
        Call { obj: Box::new(obj), attr_name, args, t, constructs_effectful_instance: false }
    }
}

impl VarSignature {
    pub fn new(ident: Identifier, t_spec: Option<TypeSpecWithOp>) -> (v: Self)
        ensures
            v == (VarSignature { ident, global: false, t_spec }),
    {
        VarSignature { ident, global: false, t_spec }
    }

    /// A variable stored as `global`.
    pub fn global(ident: Identifier, t_spec: Option<TypeSpecWithOp>) -> (v: Self)
        ensures
            v == (VarSignature { ident, global: true, t_spec }),
    {
        VarSignature { ident, global: true, t_spec }
    }

    pub fn inspect(&self) -> (n: &String)
        ensures
            *n == self.ident.name,
    {
        &self.ident.name
    }

    pub fn name(&self) -> (n: &String)
        ensures
            *n == self.ident.name,
    {
        &self.ident.name
    }
}

impl NonDefaultParamSignature {
    /// A parameter bound by value: a plain name, or a pattern (`None`).
    pub fn new(name: Option<String>, t_spec: Option<String>, vi: VarInfo) -> (p: Self)
        ensures
            p == (NonDefaultParamSignature { name, binding: ParamBinding::Value, t_spec, vi }),
    {
        NonDefaultParamSignature { name, binding: ParamBinding::Value, t_spec, vi }
    }

    /// A parameter `ref name`, or `ref! name` when `mutable`.
    pub fn by_ref(name: String, mutable: bool, t_spec: Option<String>, vi: VarInfo) -> (p: Self)
        ensures
            p == (NonDefaultParamSignature {
                name: Some(name),
                binding: if mutable {
                    ParamBinding::RefMut
                } else {
                    ParamBinding::Ref
                },
                t_spec,
                vi,
            }),
    {
        let binding = if mutable {
            ParamBinding::RefMut
        } else {
            ParamBinding::Ref
        };
        NonDefaultParamSignature { name: Some(name), binding, t_spec, vi }
    }

    pub fn name(&self) -> (n: Option<&String>)
        ensures
            opt_ref(n) == self.name,
    {
        match &self.name {
            Some(n) => Some(n),
            None => None,
        }
    }
}

impl DefaultParamSignature {
    pub fn new(sig: NonDefaultParamSignature, default_val: Expr) -> (p: Self)
        ensures
            p == (DefaultParamSignature { sig, default_val }),
    {
        DefaultParamSignature { sig, default_val }
    }

    pub fn name(&self) -> (n: Option<&String>)
        ensures
            opt_ref(n) == self.sig.name,
    {
        self.sig.name()
    }
}

impl SubrSignature {
    pub fn new(
        ident: Identifier,
        params: Params,
        return_t_spec: Option<TypeSpecWithOp>,
        captured_names: Vec<Identifier>,
    ) -> (s: Self)
        ensures
            s == (SubrSignature { ident, params, return_t_spec, captured_names }),
    {
        SubrSignature { ident, params, return_t_spec, captured_names }
    }

    pub fn is_procedural(&self) -> (b: bool)
        ensures
            b == is_procedural_name(self.ident.name@),
    {
        self.ident.is_procedural()
    }

    pub fn name(&self) -> (n: &String)
        ensures
            *n == self.ident.name,
    {
        &self.ident.name
    }
}

impl Lambda {
    pub fn new(
        id: usize,
        params: Params,
        op: Token,
        return_t_spec: Option<String>,
        captured_names: Vec<Identifier>,
        body: Block,
        t: TypeInfo,
    ) -> (l: Self)
        ensures
            l == (Lambda { params, op, return_t_spec, captured_names, body, id, t }),
    {
        Lambda { params, op, return_t_spec, captured_names, body, id, t }
    }
}

impl Signature {
    pub fn name(&self) -> (n: &String)
        ensures
            *n == self.spec_ident().name,
    {
        &self.ident().name
    }
}

impl DefBody {
    pub fn new(block: Block) -> (b: Self)
        ensures
            b == (DefBody { block }),
    {
        DefBody { block }
    }
}

impl Def {
    pub fn new(sig: Signature, body: DefBody) -> (d: Self)
        ensures
            d == (Def { sig, body }),
    {
        Def { sig, body }
    }
}

impl Methods {
    pub fn new(class: TypeInfo, impl_trait: Option<TypeInfo>, defs: Block) -> (m: Self)
        ensures
            m == (Methods { class, impl_trait, defs }),
    {
        Methods { class, impl_trait, defs }
    }
}

impl ClassDef {
    pub fn new(sig: Signature, require_or_sup: Option<Expr>, methods_list: Vec<Methods>) -> (c: Self)
        ensures
            c.sig == sig,
            c.require_or_sup == match require_or_sup {
                Some(e) => Some(Box::new(e)),
                None => None::<Box<Expr>>,
            },
            c.methods_list == methods_list,
    {
        let require_or_sup = match require_or_sup {
            Some(e) => Some(Box::new(e)),
            None => None,
        };
        ClassDef { sig, require_or_sup, methods_list }
    }
}

impl PatchDef {
    pub fn new(sig: Signature, base: Expr, methods: Block) -> (p: Self)
        ensures
            p == (PatchDef { sig, base: Box::new(base), methods }),
    {
        PatchDef { sig, base: Box::new(base), methods }
    }
}

impl ReDef {
    pub fn new(attr: Accessor, block: Block) -> (r: Self)
        ensures
            r == (ReDef { attr, block }),
    {
        ReDef { attr, block }
    }
}

impl HIR {
    pub fn new(name: String, module: Module) -> (h: Self)
        ensures
            h == (HIR { name, module }),
    {
        HIR { name, module }
    }
}

impl Expr {
    /// A call of the expression; a call of an attribute access calls the
    /// attribute on its receiver. `t` is the type of what it returns.
    pub fn call(self, args: Args, t: TypeInfo) -> (c: Call)
        ensures
            c == match self {
                Expr::Accessor(Accessor::Attr(at)) => Call {
                    obj: at.obj,
                    attr_name: Some(at.ident),
                    args,
                    t,
                    constructs_effectful_instance: false,
                },
                other => Call {
                    obj: Box::new(other),
                    attr_name: None,
                    args,
                    t,
                    constructs_effectful_instance: false,
                },
            },
    {
        match self {
            Expr::Accessor(Accessor::Attr(at)) => Call::new(*at.obj, Some(at.ident), args, t),
            other => Call::new(other, None, args, t),
        }
    }

    pub fn call_expr(self, args: Args, t: TypeInfo) -> (e: Self)
        ensures
            e matches Expr::Call(c) && c == match self {
                Expr::Accessor(Accessor::Attr(at)) => Call {
                    obj: at.obj,
                    attr_name: Some(at.ident),
                    args,
                    t,
                    constructs_effectful_instance: false,
                },
                other => Call {
                    obj: Box::new(other),
                    attr_name: None,
                    args,
                    t,
                    constructs_effectful_instance: false,
                },
            },
    {
        Expr::Call(self.call(args, t))
    }

    /// A call with the one positional argument `expr`.
    pub fn call1(self, expr: Expr, t: TypeInfo) -> (e: Self)
        ensures
            e matches Expr::Call(c) && c.args.pos_args@ == seq![PosArg { expr }]
                && c.args.var_args is None && c.args.kw_args@.len() == 0
                && c.args.kw_var is None && c.t == t,
    {
        self.call_expr(Args::single(PosArg::new(expr)), t)
    }

    /// A call with the two positional arguments `expr1` and `expr2`.
    pub fn call2(self, expr1: Expr, expr2: Expr, t: TypeInfo) -> (e: Self)
        ensures
            e matches Expr::Call(c) && c.args.pos_args@ == seq![
                PosArg { expr: expr1 },
                PosArg { expr: expr2 },
            ] && c.args.var_args is None && c.args.kw_args@.len() == 0 && c.args.kw_var is None
                && c.t == t,
    {
        let mut v: Vec<PosArg> = Vec::new();
        v.push(PosArg::new(expr1));
        v.push(PosArg::new(expr2));
        self.call_expr(Args::pos_only(v, None), t)
    }

    /// `self.ident`
    pub fn attr(self, ident: Identifier) -> (a: Accessor)
        ensures
            a == Accessor::Attr(Attribute { obj: Box::new(self), ident }),
    {
        Accessor::attr(self, ident)
    }

    pub fn attr_expr(self, ident: Identifier) -> (e: Self)
        ensures
            e == Expr::Accessor(Accessor::Attr(Attribute { obj: Box::new(self), ident })),
    {
        Expr::Accessor(self.attr(ident))
    }
}

} // verus!

verus! {

/// How hard an expression is for type inference: literals and ascriptions
/// cost nothing, a name one, each attribute access, operator application
/// and call one more than its parts, a lambda one plus one for a missing
/// return type and one per parameter without a type, plus its body; a
/// collection or record costs what its elements cost, anything else five.
pub open spec fn complexity_of(e: Expr) -> nat
    decreases e,
{
    match e {
        Expr::Literal(_) | Expr::TypeAsc(_) => 0,
        Expr::Accessor(Accessor::Ident(_)) => 1,
        Expr::Accessor(Accessor::Attr(at)) => 1 + complexity_of(*at.obj),
        Expr::Tuple(Tuple::Normal(t)) => pos_complexity(t.elems.pos_args@),
        Expr::List(List::Normal(l)) => pos_complexity(l.elems.pos_args@),
        Expr::Dict(Dict::Normal(d)) => kv_complexity(d.kvs@),
        Expr::SetLit(SetLit::Normal(st)) => pos_complexity(st.elems.pos_args@),
        Expr::Record(r) => defs_complexity(r.attrs.0@),
        Expr::BinOp(b) => 1 + complexity_of(*b.lhs) + complexity_of(*b.rhs),
        Expr::UnaryOp(u) => 1 + complexity_of(*u.expr),
        Expr::Call(c) => 1 + complexity_of(*c.obj) + pos_complexity(c.args.pos_args@) + (match c.args.var_args {
            Some(v) => complexity_of(v.expr),
            None => 0,
        }) + kw_complexity(c.args.kw_args@),
        Expr::Lambda(l) => 1 + (if l.return_t_spec is None {
            1nat
        } else {
            0nat
        }) + untyped_count(sigs_of(l.params)) + exprs_complexity(l.body.0@),
        _ => 5,
    }
}

pub open spec fn exprs_complexity(s: Seq<Expr>) -> nat
    decreases s,
{
    if s.len() == 0 {
        0
    } else {
        complexity_of(s[0]) + exprs_complexity(s.skip(1))
    }
}

pub open spec fn pos_complexity(s: Seq<PosArg>) -> nat
    decreases s,
{
    if s.len() == 0 {
        0
    } else {
        complexity_of(s[0].expr) + pos_complexity(s.skip(1))
    }
}

pub open spec fn kw_complexity(s: Seq<KwArg>) -> nat
    decreases s,
{
    if s.len() == 0 {
        0
    } else {
        complexity_of(s[0].expr) + kw_complexity(s.skip(1))
    }
}

pub open spec fn kv_complexity(s: Seq<KeyValue>) -> nat
    decreases s,
{
    if s.len() == 0 {
        0
    } else {
        complexity_of(s[0].key) + complexity_of(s[0].value) + kv_complexity(s.skip(1))
    }
}

/// The complexity of the bodies of record attributes.
pub open spec fn defs_complexity(s: Seq<Def>) -> nat
    decreases s,
{
    if s.len() == 0 {
        0
    } else {
        exprs_complexity(s[0].body.block.0@) + defs_complexity(s.skip(1))
    }
}

/// The number of parameters written without a type.
pub open spec fn untyped_count(s: Seq<NonDefaultParamSignature>) -> nat
    decreases s.len(),
{
    if s.len() == 0 {
        0
    } else {
        (if s[0].t_spec is None {
            1nat
        } else {
            0nat
        }) + untyped_count(s.skip(1))
    }
}

fn count_untyped(v: &Vec<&NonDefaultParamSignature>) -> (n: usize)
    ensures
        n == untyped_count(derefs(v@)),
{
    let ghost s = derefs(v@);
    let mut n: usize = 0;
    let mut i: usize = 0;
    assert(s.skip(0) == s);
    while i < v.len()
        invariant
            i <= v@.len(),
            s == derefs(v@),
            n <= i,
            n + untyped_count(s.skip(i as int)) == untyped_count(s),
        decreases v.len() - i,
    {
        let ghost rest = s.skip(i as int);
        assert(rest.skip(1) == s.skip(i as int + 1));
        assert(rest[0] == *v@[i as int]);
        if v[i].t_spec.is_none() {
            n += 1;
        }
        i += 1;
    }
    assert(s.skip(i as int).len() == 0);
    n
}

fn exprs_complexity_of(s: &Vec<Expr>) -> (r: usize)
    requires
        exprs_complexity(s@) <= usize::MAX,
    ensures
        r == exprs_complexity(s@),
    decreases s,
{
    let mut sum: usize = 0;
    let mut i: usize = 0;
    assert(s@.skip(0) == s@);
    while i < s.len()
        invariant
            i <= s@.len(),
            exprs_complexity(s@) <= usize::MAX,
            sum + exprs_complexity(s@.skip(i as int)) == exprs_complexity(s@),
        decreases s.len() - i,
    {
        let ghost rest = s@.skip(i as int);
        assert(rest.skip(1) == s@.skip(i as int + 1));
        assert(rest[0] == s@[i as int]);
        assert(decreases_to!(*s => s@));
        assert(decreases_to!(s@ => s@[i as int]));
        let c = s[i].complexity();
        sum += c;
        i += 1;
    }
    sum
}

fn pos_complexity_of(s: &Vec<PosArg>) -> (r: usize)
    requires
        pos_complexity(s@) <= usize::MAX,
    ensures
        r == pos_complexity(s@),
    decreases s,
{
    let mut sum: usize = 0;
    let mut i: usize = 0;
    assert(s@.skip(0) == s@);
    while i < s.len()
        invariant
            i <= s@.len(),
            pos_complexity(s@) <= usize::MAX,
            sum + pos_complexity(s@.skip(i as int)) == pos_complexity(s@),
        decreases s.len() - i,
    {
        let ghost rest = s@.skip(i as int);
        assert(rest.skip(1) == s@.skip(i as int + 1));
        assert(rest[0] == s@[i as int]);
        assert(decreases_to!(*s => s@));
        assert(decreases_to!(s@ => s@[i as int]));
        assert(decreases_to!(s@[i as int] => s@[i as int].expr));
        let c = s[i].expr.complexity();
        sum += c;
        i += 1;
    }
    sum
}

fn kw_complexity_of(s: &Vec<KwArg>) -> (r: usize)
    requires
        kw_complexity(s@) <= usize::MAX,
    ensures
        r == kw_complexity(s@),
    decreases s,
{
    let mut sum: usize = 0;
    let mut i: usize = 0;
    assert(s@.skip(0) == s@);
    while i < s.len()
        invariant
            i <= s@.len(),
            kw_complexity(s@) <= usize::MAX,
            sum + kw_complexity(s@.skip(i as int)) == kw_complexity(s@),
        decreases s.len() - i,
    {
        let ghost rest = s@.skip(i as int);
        assert(rest.skip(1) == s@.skip(i as int + 1));
        assert(rest[0] == s@[i as int]);
        assert(decreases_to!(*s => s@));
        assert(decreases_to!(s@ => s@[i as int]));
        assert(decreases_to!(s@[i as int] => s@[i as int].expr));
        let c = s[i].expr.complexity();
        sum += c;
        i += 1;
    }
    sum
}

fn kv_complexity_of(s: &Vec<KeyValue>) -> (r: usize)
    requires
        kv_complexity(s@) <= usize::MAX,
    ensures
        r == kv_complexity(s@),
    decreases s,
{
    let mut sum: usize = 0;
    let mut i: usize = 0;
    assert(s@.skip(0) == s@);
    while i < s.len()
        invariant
            i <= s@.len(),
            kv_complexity(s@) <= usize::MAX,
            sum + kv_complexity(s@.skip(i as int)) == kv_complexity(s@),
        decreases s.len() - i,
    {
        let ghost rest = s@.skip(i as int);
        assert(rest.skip(1) == s@.skip(i as int + 1));
        assert(rest[0] == s@[i as int]);
        assert(decreases_to!(*s => s@));
        assert(decreases_to!(s@ => s@[i as int]));
        assert(decreases_to!(s@[i as int] => s@[i as int].key));
        assert(decreases_to!(s@[i as int] => s@[i as int].value));
        let k = s[i].key.complexity();
        sum += k;
        let v = s[i].value.complexity();
        sum += v;
        i += 1;
    }
    sum
}

fn defs_complexity_of(s: &Vec<Def>) -> (r: usize)
    requires
        defs_complexity(s@) <= usize::MAX,
    ensures
        r == defs_complexity(s@),
    decreases s,
{
    let mut sum: usize = 0;
    let mut i: usize = 0;
    assert(s@.skip(0) == s@);
    while i < s.len()
        invariant
            i <= s@.len(),
            defs_complexity(s@) <= usize::MAX,
            sum + defs_complexity(s@.skip(i as int)) == defs_complexity(s@),
        decreases s.len() - i,
    {
        let ghost rest = s@.skip(i as int);
        assert(rest.skip(1) == s@.skip(i as int + 1));
        assert(rest[0] == s@[i as int]);
        assert(decreases_to!(*s => s@));
        assert(decreases_to!(s@ => s@[i as int]));
        assert(decreases_to!(s@[i as int] => s@[i as int].body.block.0));
        let c = exprs_complexity_of(&s[i].body.block.0);
        sum += c;
        i += 1;
    }
    sum
}

impl Expr {
    /// The complexity of the expression for type inference: the arguments
    /// of a call are inferred from the least complex one on.
    pub fn complexity(&self) -> (c: usize)
        requires
            complexity_of(*self) <= usize::MAX,
        ensures
            c == complexity_of(*self),
        decreases *self,
    {
        match self {
            Expr::Literal(_) | Expr::TypeAsc(_) => 0,
            Expr::Accessor(Accessor::Ident(_)) => 1,
            Expr::Accessor(Accessor::Attr(at)) => 1 + at.obj.complexity(),
            Expr::Tuple(Tuple::Normal(t)) => pos_complexity_of(&t.elems.pos_args),
            Expr::List(List::Normal(l)) => pos_complexity_of(&l.elems.pos_args),
            Expr::Dict(Dict::Normal(d)) => kv_complexity_of(&d.kvs),
            Expr::SetLit(SetLit::Normal(st)) => pos_complexity_of(&st.elems.pos_args),
            Expr::Record(r) => defs_complexity_of(&r.attrs.0),
            Expr::BinOp(b) => 1 + b.lhs.complexity() + b.rhs.complexity(),
            Expr::UnaryOp(u) => 1 + u.expr.complexity(),
            Expr::Call(c) => {
                let mut sum: usize = 1 + c.obj.complexity();
                sum += pos_complexity_of(&c.args.pos_args);
                match &c.args.var_args {
                    Some(v) => {
                        sum += v.expr.complexity();
                    },
                    None => {},
                }
                sum += kw_complexity_of(&c.args.kw_args);
                sum
            },
            Expr::Lambda(l) => {
                let sigs = l.params.sigs();
                let untyped = count_untyped(&sigs);
                let missing: usize = if l.return_t_spec.is_none() {
                    1
                } else {
                    0
                };
                let mut sum: usize = 1 + missing + untyped;
                sum += exprs_complexity_of(&l.body.0);
                sum
            },
            _ => 5,
        }
    }
}

/// Removing the positional argument at `i` and inserting it back at `i`
/// restores the positional arguments.
pub proof fn lemma_remove_then_insert_pos(a0: Args, a1: Args, a2: Args, i: int, e: Expr)
    requires
        0 <= i < a0.pos_args@.len(),
        Some(e) == arg_at(a0, i),
        a1.pos_args@ == a0.pos_args@.remove(i),
        a2.pos_args@ == a1.pos_args@.insert(i, PosArg { expr: e }),
    ensures
        a2.pos_args@ == a0.pos_args@,
{
    assert(a0.pos_args@[i] == PosArg { expr: e });
    assert(a2.pos_args@ =~= a0.pos_args@);
}

/// The expressions of the arguments: positional ones, `*args`, then
/// keyword ones.
pub open spec fn args_exprs(a: Args) -> Seq<Expr> {
    a.pos_args@.map_values(|p: PosArg| p.expr) + (match a.var_args {
        Some(v) => seq![v.expr],
        None => Seq::empty(),
    }) + a.kw_args@.map_values(|k: KwArg| k.expr)
}

impl Args {
    /// The argument expressions, positional ones first, then `*args`, then
    /// keyword ones (`**kwargs` left out).
    pub fn iter(&self) -> (r: Vec<&Expr>)
        ensures
            derefs(r@) == args_exprs(*self),
    {
        let ghost pe = self.pos_args@.map_values(|p: PosArg| p.expr);
        let mut r: Vec<&Expr> = Vec::new();
        let mut i: usize = 0;
        while i < self.pos_args.len()
            invariant
                i <= self.pos_args@.len(),
                pe == self.pos_args@.map_values(|p: PosArg| p.expr),
                derefs(r@) == pe.take(i as int),
            decreases self.pos_args.len() - i,
        {
            let ghost prev = r@;
            r.push(&self.pos_args[i].expr);
            proof {
                assert(derefs(r@) =~= derefs(prev).push(pe[i as int]));
                assert(pe.take(i as int + 1) =~= pe.take(i as int).push(pe[i as int]));
            }
            i += 1;
        }
        proof {
            assert(pe.take(i as int) =~= pe);
        }
        let ghost front = derefs(r@);
        match &self.var_args {
            Some(v) => {
                let ghost prev = r@;
                r.push(&v.expr);
                assert(derefs(r@) =~= derefs(prev).push(v.expr));
            },
            None => {},
        }
        let ghost mid = derefs(r@);
        assert(mid == pe + match self.var_args {
            Some(v) => seq![v.expr],
            None => Seq::<Expr>::empty(),
        });
        let ghost ke = self.kw_args@.map_values(|k: KwArg| k.expr);
        let mut j: usize = 0;
        while j < self.kw_args.len()
            invariant
                j <= self.kw_args@.len(),
                ke == self.kw_args@.map_values(|k: KwArg| k.expr),
                derefs(r@) == mid + ke.take(j as int),
            decreases self.kw_args.len() - j,
        {
            let ghost prev = r@;
            r.push(&self.kw_args[j].expr);
            proof {
                assert(derefs(r@) =~= derefs(prev).push(ke[j as int]));
                assert(ke.take(j as int + 1) =~= ke.take(j as int).push(ke[j as int]));
                assert(derefs(r@) =~= mid + ke.take(j as int + 1));
            }
            j += 1;
        }
        proof {
            assert(ke.take(j as int) =~= ke);
        }
        r
    }

    /// A mutable reference to the first positional argument, else to the
    /// first keyword argument named `key`.
    pub fn get_mut_left_or_key(&mut self, key: &str) -> (e: Option<&mut Expr>)
        ensures
            old(self).pos_args@.len() > 0 ==> (e matches Some(r) && *r == old(self).pos_args@[0].expr
                && final(self).pos_args@ == old(self).pos_args@.update(0, PosArg { expr: *final(r) })
                && final(self).kw_args == old(self).kw_args),
            old(self).pos_args@.len() == 0 && !has_kw(old(self).kw_args@, key@) ==> (e is None
                && *final(self) == *old(self)),
            old(self).pos_args@.len() == 0 && has_kw(old(self).kw_args@, key@) ==> exists|i: int|
                is_first_kw(old(self).kw_args@, key@, i) && (e matches Some(r) && *r
                    == old(self).kw_args@[i].expr && final(self).kw_args@ == old(self).kw_args@.update(
                    i,
                    KwArg { keyword: old(self).kw_args@[i].keyword, expr: *final(r) },
                ) && final(self).pos_args == old(self).pos_args),
            final(self).var_args == old(self).var_args,
            final(self).kw_var == old(self).kw_var,
            final(self).paren == old(self).paren,
    {
        if self.pos_args.len() > 0 {
            Some(&mut self.pos_args[0].expr)
        } else {
            match position_of_kw(&self.kw_args, key) {
                Some(i) => Some(&mut self.kw_args[i].expr),
                None => None,
            }
        }
    }
}

impl Signature {
    /// A mutable reference to the name the signature defines.
    pub fn ident_mut(&mut self) -> (i: &mut Identifier)
        ensures
            *i == old(self).spec_ident(),
            *final(self) == match *old(self) {
                Signature::Var(v) => Signature::Var(VarSignature { ident: *final(i), ..v }),
                Signature::Subr(s) => Signature::Subr(SubrSignature { ident: *final(i), ..s }),
                Signature::Glob(g) => Signature::Glob(GlobSignature { dummy_ident: *final(i), ..g }),
            },
    {
        match self {
            Signature::Var(v) => &mut v.ident,
            Signature::Subr(s) => &mut s.ident,
            Signature::Glob(g) => &mut g.dummy_ident,
        }
    }

    /// A mutable reference to the parameters, for a subroutine.
    pub fn params_mut(&mut self) -> (p: Option<&mut Params>)
        ensures
            match *old(self) {
                Signature::Subr(s) => p matches Some(r) && *r == s.params && *final(self)
                    == Signature::Subr(SubrSignature { params: *final(r), ..s }),
                _ => p is None && *final(self) == *old(self),
            },
    {
        match self {
            Signature::Subr(s) => Some(&mut s.params),
            _ => None,
        }
    }
}

impl TypeSpecWithOp {
    pub fn new(kind: AscriptionKind, t_spec: String, expr: Expr, spec_t: TypeInfo) -> (t: Self)
        ensures
            t == (TypeSpecWithOp { kind, t_spec, expr: Box::new(expr), spec_t }),
    {
        TypeSpecWithOp { kind, t_spec, expr: Box::new(expr), spec_t }
    }

    pub fn kind(&self) -> (k: AscriptionKind)
        ensures
            k == self.kind,
    {
        self.kind
    }
}

impl TypeAscription {
    pub fn new(expr: Expr, spec: TypeSpecWithOp) -> (t: Self)
        ensures
            t == (TypeAscription { expr: Box::new(expr), spec }),
    {
        TypeAscription { expr: Box::new(expr), spec }
    }
}

impl Expr {
    /// `self` ascribed the type specification `t_spec`.
    pub fn type_asc(self, t_spec: TypeSpecWithOp) -> (t: TypeAscription)
        ensures
            t == (TypeAscription { expr: Box::new(self), spec: t_spec }),
    {
        TypeAscription::new(self, t_spec)
    }

    pub fn type_asc_expr(self, t_spec: TypeSpecWithOp) -> (e: Self)
        ensures
            e == Expr::TypeAsc(TypeAscription { expr: Box::new(self), spec: t_spec }),
    {
        Expr::TypeAsc(self.type_asc(t_spec))
    }
}

/// The written type specification of a signature: a variable's type, a
/// subroutine's return type.
pub open spec fn t_spec_with_op_of(s: Signature) -> Option<TypeSpecWithOp> {
    match s {
        Signature::Var(v) => v.t_spec,
        Signature::Subr(sub) => sub.return_t_spec,
        Signature::Glob(_) => None,
    }
}

impl Signature {
    /// The written type specification, as written.
    pub fn t_spec(&self) -> (t: Option<&String>)
        ensures
            opt_ref(t) == match t_spec_with_op_of(*self) {
                Some(ts) => Some(ts.t_spec),
                None => None,
            },
    {
        match self {
            Signature::Var(v) => match &v.t_spec {
                Some(t) => Some(&t.t_spec),
                None => None,
            },
            Signature::Subr(s) => match &s.return_t_spec {
                Some(t) => Some(&t.t_spec),
                None => None,
            },
            Signature::Glob(_) => None,
        }
    }

    /// The written type specification with its operator.
    pub fn t_spec_with_op(&self) -> (t: Option<&TypeSpecWithOp>)
        ensures
            opt_ref(t) == t_spec_with_op_of(*self),
    {
        match self {
            Signature::Var(v) => match &v.t_spec {
                Some(t) => Some(t),
                None => None,
            },
            Signature::Subr(s) => match &s.return_t_spec {
                Some(t) => Some(t),
                None => None,
            },
            Signature::Glob(_) => None,
        }
    }
}

} // verus!
