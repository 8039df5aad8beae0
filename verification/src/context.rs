//! Scopes of the type checker: the kinds of contexts and control-flow
//! calls, and the chain of enclosing scopes.
use vstd::prelude::*;

use crate::strutil::{replace_all, str_eq, str_replace};
use crate::hir::{def_kind_of, is_procedural_name, Def, DefKind, Signature, VarInfo};
use crate::ty::{plain_view, TypeInfo, TypeView};

verus! {

/// Whether the compiler runs in Python-compatible mode (it does not by default).
pub const PYTHON_MODE: bool = false;

/// The built-in higher-order procedures that behave as control flow.
#[derive(Debug, Clone, Copy, PartialEq, Eq, Structural)]
pub enum ControlKind {
    If,
    While,
    For,
    Match,
    Try,
    With,
    Discard,
    Assert,
}

/// The control kind named by a callee name.
pub open spec fn control_kind_of(s: Seq<char>) -> Option<ControlKind> {
    if s == "if"@ || s == "if!"@ {
        Some(ControlKind::If)
    } else if s == "while!"@ {
        Some(ControlKind::While)
    } else if s == "while"@ && PYTHON_MODE {
        Some(ControlKind::While)
    } else if s == "for"@ || s == "for!"@ {
        Some(ControlKind::For)
    } else if s == "match"@ || s == "match!"@ {
        Some(ControlKind::Match)
    } else if s == "try"@ || s == "try!"@ {
        Some(ControlKind::Try)
    } else if s == "with"@ || s == "with!"@ {
        Some(ControlKind::With)
    } else if s == "discard"@ {
        Some(ControlKind::Discard)
    } else if s == "assert"@ {
        Some(ControlKind::Assert)
    } else {
        None
    }
}

impl ControlKind {
    /// Reads a callee name such as `if!` or `for`.
    pub fn try_from(s: &str) -> (r: Result<ControlKind, ()>)
        ensures
            r matches Ok(k) ==> control_kind_of(s@) == Some(k),
            r is Err ==> control_kind_of(s@) is None,
    {
        if str_eq(s, "if") || str_eq(s, "if!") {
            Ok(ControlKind::If)
        } else if str_eq(s, "while!") {
            Ok(ControlKind::While)
        } else if str_eq(s, "while") && PYTHON_MODE {
            Ok(ControlKind::While)
        } else if str_eq(s, "for") || str_eq(s, "for!") {
            Ok(ControlKind::For)
        } else if str_eq(s, "match") || str_eq(s, "match!") {
            Ok(ControlKind::Match)
        } else if str_eq(s, "try") || str_eq(s, "try!") {
            Ok(ControlKind::Try)
        } else if str_eq(s, "with") || str_eq(s, "with!") {
            Ok(ControlKind::With)
        } else if str_eq(s, "discard") {
            Ok(ControlKind::Discard)
        } else if str_eq(s, "assert") {
            Ok(ControlKind::Assert)
        } else {
            Err(())
        }
    }

    /// The name the kind is displayed by.
    pub fn name(&self) -> (s: &'static str)
        ensures
            s@ == match *self {
                ControlKind::If => "if"@,
                ControlKind::While => "while"@,
                ControlKind::For => "for"@,
                ControlKind::Match => "match"@,
                ControlKind::Try => "try"@,
                ControlKind::With => "with"@,
                ControlKind::Discard => "discard"@,
                ControlKind::Assert => "assert"@,
            },
    {
        match self {
            ControlKind::If => "if",
            ControlKind::While => "while",
            ControlKind::For => "for",
            ControlKind::Match => "match",
            ControlKind::Try => "try",
            ControlKind::With => "with",
            ControlKind::Discard => "discard",
            ControlKind::Assert => "assert",
        }
    }

    pub fn is_if(&self) -> (b: bool)
        ensures
            b == (*self == ControlKind::If),
    {
        matches!(self, ControlKind::If)
    }

    /// `if`, `if!` and `while!`.
    pub fn is_conditional(&self) -> (b: bool)
        ensures
            b == (*self == ControlKind::If || *self == ControlKind::While),
    {
        matches!(self, ControlKind::If | ControlKind::While)
    }

    pub fn makes_scope(&self) -> (b: bool)
        ensures
            b == (*self != ControlKind::Assert),
    {
        !matches!(self, ControlKind::Assert)
    }
}

/// Whether a parameter has a default value.
#[derive(Debug, Clone, Copy, PartialEq, Eq, Structural)]
pub enum DefaultInfo {
    NonDefault,
    WithDefault,
}

impl DefaultInfo {
    pub fn has_default(&self) -> (b: bool)
        ensures
            b == (*self == DefaultInfo::WithDefault),
    {
        matches!(self, DefaultInfo::WithDefault)
    }
}

/// The variance of a type parameter.
#[derive(Debug, Clone, Copy, PartialEq, Eq, Structural)]
pub enum Variance {
    /// `Output(T)`, `+`
    Covariant,
    /// `Input(T)`, `-`
    Contravariant,
    /// `0`
    Invariant,
}

/// Composition of variances: equal signs give `Covariant`, opposite signs
/// give `Contravariant`, and `Invariant` absorbs.
pub open spec fn variance_mul(a: Variance, b: Variance) -> Variance {
    match (a, b) {
        (Variance::Covariant, Variance::Covariant) => Variance::Covariant,
        (Variance::Contravariant, Variance::Contravariant) => Variance::Covariant,
        (Variance::Covariant, Variance::Contravariant) => Variance::Contravariant,
        (Variance::Contravariant, Variance::Covariant) => Variance::Contravariant,
        _ => Variance::Invariant,
    }
}

impl Variance {
    pub fn default() -> (v: Self)
        ensures
            v == Variance::Invariant,
    {
        Variance::Invariant
    }

    /// The variance of a parameter seen through two nested positions.
    pub fn mul(self, rhs: Self) -> (v: Self)
        ensures
            v == variance_mul(self, rhs),
    {
        match (self, rhs) {
            (Variance::Covariant, Variance::Covariant)
            | (Variance::Contravariant, Variance::Contravariant) => Variance::Covariant,
            (Variance::Covariant, Variance::Contravariant)
            | (Variance::Contravariant, Variance::Covariant) => Variance::Contravariant,
            _ => Variance::Invariant,
        }
    }

    pub fn is_invariant(&self) -> (b: bool)
        ensures
            b == (*self == Variance::Invariant),
    {
        matches!(self, Variance::Invariant)
    }
}

/// Composing variances is commutative and associative, `Covariant` is its
/// unit and `Invariant` absorbs everything.
pub proof fn lemma_variance_mul_monoid(a: Variance, b: Variance, c: Variance)
    ensures
        variance_mul(a, b) == variance_mul(b, a),
        variance_mul(variance_mul(a, b), c) == variance_mul(a, variance_mul(b, c)),
        variance_mul(Variance::Covariant, a) == a,
        variance_mul(Variance::Invariant, a) == Variance::Invariant,
{
}

/// An implementation of a trait by a type.
#[derive(Debug, Clone)]
pub struct TraitImpl {
    pub sub_type: TypeInfo,
    pub sup_trait: TypeInfo,
}

impl TraitImpl {
    pub fn new(sub_type: TypeInfo, sup_trait: TypeInfo) -> (t: Self)
        ensures
            t == (TraitImpl { sub_type, sup_trait }),
    {
        TraitImpl { sub_type, sup_trait }
    }
}

/// The kind of scope a context describes.
#[derive(Debug, Clone)]
pub enum ContextKind {
    LambdaFunc(Option<ControlKind>),
    LambdaProc(Option<ControlKind>),
    Func,
    Proc,
    Class,
    /// The trait implemented, if any.
    MethodDefs(Option<TypeInfo>),
    PatchMethodDefs(TypeInfo),
    Trait,
    StructuralTrait,
    Patch(TypeInfo),
    StructuralPatch(TypeInfo),
    GluePatch(Box<TraitImpl>),
    Module,
    Instant,
    Record,
    Dummy,
}

impl ContextKind {
    pub fn is_method_def(&self) -> (b: bool)
        ensures
            b == (*self is MethodDefs),
    {
        matches!(self, ContextKind::MethodDefs(_))
    }

    pub fn is_trait_impl(&self) -> (b: bool)
        ensures
            b == (*self matches ContextKind::MethodDefs(Some(_))),
    {
        matches!(self, ContextKind::MethodDefs(Some(_)))
    }

    pub fn is_type(&self) -> (b: bool)
        ensures
            b == (*self is Class || *self is Trait || *self is StructuralTrait),
    {
        matches!(self, ContextKind::Class | ContextKind::Trait | ContextKind::StructuralTrait)
    }

    pub open spec fn spec_is_subr(&self) -> bool {
        *self is Func || *self is Proc || *self is LambdaFunc || *self is LambdaProc
    }

    pub fn is_subr(&self) -> (b: bool)
        ensures
            b == self.spec_is_subr(),
    {
        matches!(
            self,
            ContextKind::Func | ContextKind::Proc | ContextKind::LambdaFunc(_)
                | ContextKind::LambdaProc(_)
        )
    }

    pub fn is_class(&self) -> (b: bool)
        ensures
            b == (*self is Class),
    {
        matches!(self, ContextKind::Class)
    }

    pub fn is_trait(&self) -> (b: bool)
        ensures
            b == (*self is Trait || *self is StructuralTrait),
    {
        matches!(self, ContextKind::Trait | ContextKind::StructuralTrait)
    }

    pub fn is_patch(&self) -> (b: bool)
        ensures
            b == (*self is Patch || *self is GluePatch),
    {
        matches!(self, ContextKind::Patch(_) | ContextKind::GluePatch(_))
    }

    pub fn is_module(&self) -> (b: bool)
        ensures
            b == (*self is Module),
    {
        matches!(self, ContextKind::Module)
    }

    pub fn is_instant(&self) -> (b: bool)
        ensures
            b == (*self is Instant),
    {
        matches!(self, ContextKind::Instant)
    }

    pub fn control_kind(&self) -> (k: Option<ControlKind>)
        ensures
            k == match *self {
                ContextKind::LambdaFunc(k) => k,
                ContextKind::LambdaProc(k) => k,
                _ => None,
            },
    {
        match self {
            ContextKind::LambdaFunc(kind) | ContextKind::LambdaProc(kind) => *kind,
            _ => None,
        }
    }
}

/// Whether a definition is registered ahead of the code that uses it
/// (subroutines and constants can be referenced before their definition).
#[derive(Debug, Clone, Copy, PartialEq, Eq, Structural)]
pub enum RegistrationMode {
    PreRegister,
    Normal,
}

impl RegistrationMode {
    pub fn is_preregister(&self) -> (b: bool)
        ensures
            b == (*self == RegistrationMode::PreRegister),
    {
        matches!(self, RegistrationMode::PreRegister)
    }

    pub fn is_normal(&self) -> (b: bool)
        ensures
            b == (*self == RegistrationMode::Normal),
    {
        matches!(self, RegistrationMode::Normal)
    }
}


/// A parameter of a type or subroutine scope: its name (absent for a
/// pattern), its type, whether it is `*args`, and whether it has a default.
#[derive(Debug)]
pub struct ParamSpec {
    pub name: Option<String>,
    pub t: TypeInfo,
    pub is_var_params: bool,
    pub default_info: DefaultInfo,
}

impl Clone for ParamSpec {
    fn clone(&self) -> (p: Self)
        ensures
            p == *self,
    {
        ParamSpec {
            name: crate::hir::clone_opt_string(&self.name),
            t: self.t.clone(),
            is_var_params: self.is_var_params,
            default_info: self.default_info,
        }
    }
}

/// The view of a plain type printed as `Type`, the type of types.
pub open spec fn type_type_view() -> TypeView {
    plain_view("Type"@)
}

impl ParamSpec {
    pub fn new(name: Option<String>, t: TypeInfo, is_var_params: bool, default: DefaultInfo) -> (p:
        Self)
        ensures
            p == (ParamSpec { name, t, is_var_params, default_info: default }),
    {
        ParamSpec { name, t, is_var_params, default_info: default }
    }

    /// A named parameter.
    pub fn named(name: String, t: TypeInfo, is_var_params: bool, default: DefaultInfo) -> (p: Self)
        ensures
            p == (ParamSpec { name: Some(name), t, is_var_params, default_info: default }),
    {
        ParamSpec::new(Some(name), t, is_var_params, default)
    }

    /// A named parameter without default, not `*args`.
    pub fn named_nd(name: String, t: TypeInfo) -> (p: Self)
        ensures
            p == (ParamSpec {
                name: Some(name),
                t,
                is_var_params: false,
                default_info: DefaultInfo::NonDefault,
            }),
    {
        ParamSpec::new(Some(name), t, false, DefaultInfo::NonDefault)
    }

    /// A named parameter with a default, not `*args`.
    pub fn default(name: String, t: TypeInfo) -> (p: Self)
        ensures
            p == (ParamSpec {
                name: Some(name),
                t,
                is_var_params: false,
                default_info: DefaultInfo::WithDefault,
            }),
    {
        ParamSpec::new(Some(name), t, false, DefaultInfo::WithDefault)
    }

    /// A named parameter of type `Type`.
    pub fn t(name: String, is_var_params: bool, default: DefaultInfo) -> (p: Self)
        ensures
            p.name == Some(name),
            p.t@ == type_type_view(),
            p.is_var_params == is_var_params,
            p.default_info == default,
    {
        ParamSpec::new(Some(name), TypeInfo::plain(String::from_str("Type")), is_var_params, default)
    }

    /// A named parameter of type `Type` without default, not `*args`.
    pub fn t_nd(name: String) -> (p: Self)
        ensures
            p.name == Some(name),
            p.t@ == type_type_view(),
            !p.is_var_params,
            p.default_info == DefaultInfo::NonDefault,
    {
        ParamSpec::t(name, false, DefaultInfo::NonDefault)
    }

    pub fn has_default(&self) -> (b: bool)
        ensures
            b == (self.default_info == DefaultInfo::WithDefault),
    {
        self.default_info.has_default()
    }
}

/// What is recorded of a parameter of a scope named `ctx_name`: a private
/// parameter of the declared type, in the namespace named after the
/// parameter (after the scope, for a pattern).
pub open spec fn param_var_info(ctx_name: String, p: ParamSpec) -> VarInfo {
    VarInfo {
        t: p.t,
        is_public: false,
        def_namespace: match p.name {
            Some(n) => n,
            None => ctx_name,
        },
        is_parameter: true,
        py_name: None,
    }
}

/// The parameter entries of a scope named `ctx_name` with the parameters `ps`.
pub open spec fn param_entries(ctx_name: String, ps: Seq<ParamSpec>) -> Seq<(Option<String>, VarInfo)> {
    ps.map_values(|p: ParamSpec| (p.name, param_var_info(ctx_name, p)))
}

/// A scope of the type checker together with the chain of scopes that
/// enclose it.
#[derive(Debug)]
pub struct Context {
    /// The qualified name of the scope, e.g. `<module>::f`.
    pub name: String,
    pub kind: ContextKind,
    /// The enclosing scope.
    pub outer: Option<Box<Context>>,
    /// The parameters of the scope, by name (absent for a pattern).
    pub params: Vec<(Option<String>, VarInfo)>,
    /// The parameters the scope was made with.
    pub params_spec: Vec<ParamSpec>,
    /// The names of the higher-order callees whose block arguments are being
    /// checked, innermost last (e.g. `for!`).
    pub higher_order_caller: Vec<String>,
}

/// The view of an optional reference to a context.
pub open spec fn opt_ctx(o: Option<&Context>) -> Option<Context> {
    match o {
        Some(c) => Some(*c),
        None => None,
    }
}

/// The control-flow call whose block is checked innermost, if it is one.
pub open spec fn current_control_flow_of(c: Context) -> Option<ControlKind> {
    let cs = c.higher_order_caller@;
    if cs.len() == 0 {
        None
    } else {
        control_kind_of(cs.last()@)
    }
}

/// The innermost caller in `cs` that is a control-flow call.
pub open spec fn last_control_kind(cs: Seq<String>) -> Option<ControlKind>
    decreases cs.len(),
{
    if cs.len() == 0 {
        None
    } else if control_kind_of(cs.last()@) is Some {
        control_kind_of(cs.last()@)
    } else {
        last_control_kind(cs.drop_last())
    }
}

/// The enclosing scope, unless both scopes are modules: the outer namespace
/// then belongs to another module.
pub open spec fn outer_scope_of(c: Context) -> Option<Context> {
    match c.outer {
        Some(o) => if o.kind is Module && c.kind is Module {
            None
        } else {
            Some(*o)
        },
        None => None,
    }
}

/// The nearest module scope: the first module among the enclosing scopes,
/// else `c` itself if it is a module.
pub open spec fn module_of(c: Context) -> Option<Context>
    decreases c,
{
    let from_outer = match c.outer {
        Some(o) => if o.kind is Module {
            Some(*o)
        } else {
            module_of(*o)
        },
        None => None,
    };
    match from_outer {
        Some(m) => Some(m),
        None => if c.kind is Module {
            Some(c)
        } else {
            None
        },
    }
}

/// The scope of the subroutine that really creates the current scope: blocks
/// handed to control-flow calls do not.
pub open spec fn true_function_ctx_of(c: Context) -> Option<Context>
    decreases c,
{
    if c.kind.spec_is_subr() && current_control_flow_of(c) is None {
        Some(c)
    } else {
        match c.outer {
            Some(o) => if o.kind is Module && c.kind is Module {
                None
            } else {
                true_function_ctx_of(*o)
            },
            None => None,
        }
    }
}

/// The module path of a scope: the name of the nearest module scope (or of
/// the outermost scope) without `.__init__`.
pub open spec fn path_of(c: Context) -> Seq<char>
    decreases c,
{
    if c.kind is Module {
        replace_all(c.name@, ".__init__"@, ""@)
    } else {
        match c.outer {
            Some(o) => path_of(*o),
            None => replace_all(c.name@, ".__init__"@, ""@),
        }
    }
}

/// The name of a scope opened inside a scope named `parent`.
pub open spec fn child_name(parent: Seq<char>, name: Seq<char>, is_module: bool, is_public: bool) -> Seq<char> {
    if is_module {
        name
    } else if is_public {
        parent + "."@ + name
    } else {
        parent + "::"@ + name
    }
}

fn clone_strings(v: &Vec<String>) -> (r: Vec<String>)
    ensures
        r@ == v@,
{
    let mut r: Vec<String> = Vec::new();
    let mut i: usize = 0;
    while i < v.len()
        invariant
            i <= v.len(),
            r@ == v@.take(i as int),
        decreases v.len() - i,
    {
        r.push(v[i].clone());
        i += 1;
        assert(r@ == v@.take(i as int));
    }
    assert(v@.take(v.len() as int) == v@);
    r
}

impl Context {
    /// A scope with the given parameters and no callers recorded.
    pub fn new(name: String, kind: ContextKind, params: Vec<ParamSpec>, outer: Option<Context>) -> (c:
        Self)
        ensures
            made_as(c, name, kind, params@, outer),
    {
        Context::with_capacity(name, kind, params, outer)
    }

    /// A scope named `name` of kind `kind` with the parameters `params`: each
    /// parameter is recorded, by name, as a private parameter of its type.
    pub fn with_capacity(
        name: String,
        kind: ContextKind,
        params: Vec<ParamSpec>,
        outer: Option<Context>,
    ) -> (c: Self)
        ensures
            made_as(c, name, kind, params@, outer),
    {
        let mut entries: Vec<(Option<String>, VarInfo)> = Vec::new();
        let mut specs: Vec<ParamSpec> = Vec::new();
        let mut i: usize = 0;
        while i < params.len()
            invariant
                i <= params@.len(),
                entries@ == param_entries(name, params@.take(i as int)),
                specs@ == params@.take(i as int),
            decreases params.len() - i,
        {
            let p = &params[i];
            let def_namespace = match &p.name {
                Some(n) => n.clone(),
                None => name.clone(),
            };
            let vi = VarInfo {
                t: p.t.clone(),
                is_public: false,
                def_namespace,
                is_parameter: true,
                py_name: None,
            };
            entries.push((crate::hir::clone_opt_string(&p.name), vi));
            specs.push(p.clone());
            proof {
                assert(params@.take(i as int + 1) == params@.take(i as int).push(params@[i as int]));
                assert(entries@ == param_entries(name, params@.take(i as int + 1)));
            }
            i += 1;
        }
        proof {
            assert(params@.take(i as int) == params@);
        }
        let outer = match outer {
            Some(o) => Some(Box::new(o)),
            None => None,
        };
        Context {
            name,
            kind,
            outer,
            params: entries,
            params_spec: specs,
            higher_order_caller: Vec::new(),
        }
    }

    /// A detached dummy scope with the given name.
    pub fn default_with_name(name: &str) -> (c: Self)
        ensures
            c.name@ == name@,
            c.kind is Dummy,
            c.outer is None,
            c.params@.len() == 0,
            c.params_spec@.len() == 0,
            c.higher_order_caller@.len() == 0,
    {
        Context {
            name: String::from_str(name),
            kind: ContextKind::Dummy,
            outer: None,
            params: Vec::new(),
            params_spec: Vec::new(),
            higher_order_caller: Vec::new(),
        }
    }

    /// The detached dummy scope `<dummy>`.
    pub fn default() -> (c: Self)
        ensures
            c.name@ == "<dummy>"@,
            c.kind is Dummy,
            c.outer is None,
            c.params@.len() == 0,
            c.params_spec@.len() == 0,
            c.higher_order_caller@.len() == 0,
    {
        Self::default_with_name("<dummy>")
    }

    /// The name reported as the cause of a diagnostic.
    pub fn caused_by(&self) -> (s: String)
        ensures
            s@ == self.name@,
    {
        self.name.clone()
    }

    pub fn get_outer(&self) -> (o: Option<&Context>)
        ensures
            opt_ctx(o) == match self.outer {
                Some(b) => Some(*b),
                None => None::<Context>,
            },
    {
        match &self.outer {
            Some(b) => Some(&**b),
            None => None,
        }
    }

    /// The enclosing scope that names are looked up in.
    pub fn get_outer_scope(&self) -> (o: Option<&Context>)
        ensures
            opt_ctx(o) == outer_scope_of(*self),
    {
        match &self.outer {
            Some(outer) => {
                if outer.kind.is_module() && self.kind.is_module() {
                    None
                } else {
                    Some(&**outer)
                }
            },
            None => None,
        }
    }

    /// The trait whose methods this scope defines, if it is a trait impl.
    pub fn impl_of(&self) -> (t: Option<&TypeInfo>)
        ensures
            t == match self.kind {
                ContextKind::MethodDefs(Some(tr)) => Some(&tr),
                _ => None::<&TypeInfo>,
            },
    {
        match &self.kind {
            ContextKind::MethodDefs(Some(tr)) => Some(tr),
            _ => None,
        }
    }

    /// The module path the scope belongs to.
    pub fn path(&self) -> (p: String)
        ensures
            p@ == path_of(*self),
        decreases *self,
    {
        proof {
            reveal_strlit(".__init__");
        }
        if self.kind.is_module() {
            str_replace(self.name.as_str(), ".__init__", "")
        } else {
            match &self.outer {
                Some(outer) => outer.path(),
                None => str_replace(self.name.as_str(), ".__init__", ""),
            }
        }
    }

    /// The nearest enclosing module scope (or this scope, if it is a module
    /// and no enclosing one is).
    pub fn get_module(&self) -> (m: Option<&Context>)
        ensures
            opt_ctx(m) == module_of(*self),
        decreases *self,
    {
        let from_outer = match &self.outer {
            Some(outer) => {
                if outer.kind.is_module() {
                    Some(&**outer)
                } else {
                    outer.get_module()
                }
            },
            None => None,
        };
        match from_outer {
            Some(m) => Some(m),
            None => if self.kind.is_module() {
                Some(self)
            } else {
                None
            },
        }
    }

    /// The control-flow call whose block is checked innermost, if the
    /// innermost higher-order callee is one.
    pub fn current_control_flow(&self) -> (k: Option<ControlKind>)
        ensures
            k == current_control_flow_of(*self),
    {
        let n = self.higher_order_caller.len();
        if n == 0 {
            None
        } else {
            match ControlKind::try_from(self.higher_order_caller[n - 1].as_str()) {
                Ok(k) => Some(k),
                Err(()) => None,
            }
        }
    }

    /// The innermost control-flow call among the higher-order callees.
    pub fn control_kind(&self) -> (k: Option<ControlKind>)
        ensures
            k == last_control_kind(self.higher_order_caller@),
    {
        let cs = &self.higher_order_caller;
        let mut i = cs.len();
        assert(cs@.take(i as int) == cs@);
        while i > 0
            invariant
                i <= cs@.len(),
                cs@ == self.higher_order_caller@,
                last_control_kind(cs@) == last_control_kind(cs@.take(i as int)),
            decreases i,
        {
            i -= 1;
            assert(cs@.take(i as int + 1).drop_last() == cs@.take(i as int));
            assert(cs@.take(i as int + 1).last() == cs@[i as int]);
            match ControlKind::try_from(cs[i].as_str()) {
                Ok(k) => {
                    assert(control_kind_of(cs@.take(i as int + 1).last()@) == Some(k));
                    assert(last_control_kind(cs@.take(i as int + 1)) == Some(k));
                    return Some(k);
                },
                Err(()) => {},
            }
        }
        None
    }

    /// The scope of the subroutine that actually creates the current scope.
    pub fn current_true_function_ctx(&self) -> (c: Option<&Context>)
        ensures
            opt_ctx(c) == true_function_ctx_of(*self),
        decreases *self,
    {
        if self.kind.is_subr() && self.current_control_flow().is_none() {
            Some(self)
        } else {
            match &self.outer {
                Some(outer) => {
                    if outer.kind.is_module() && self.kind.is_module() {
                        None
                    } else {
                        outer.current_true_function_ctx()
                    }
                },
                None => None,
            }
        }
    }

    /// Opens a scope named `name` inside the current one; the current scope
    /// becomes the outer one, and the callers are carried over.
    pub fn grow(&mut self, name: &str, kind: ContextKind, is_public: bool)
        ensures
            grown_from(*old(self), name@, kind, is_public, *final(self)),
    {
        proof {
            reveal_strlit(".");
            reveal_strlit("::");
        }
        let new_name = if kind.is_module() {
            String::from_str(name)
        } else if is_public {
            let mut s = self.name.clone();
            s.append(".");
            s.append(name);
            s
        } else {
            let mut s = self.name.clone();
            s.append("::");
            s.append(name);
            s
        };
        let callers = clone_strings(&self.higher_order_caller);
        let mut parent = Context::default();
        std::mem::swap(self, &mut parent);
        *self = Context {
            name: new_name,
            kind,
            outer: Some(Box::new(parent)),
            params: Vec::new(),
            params_spec: Vec::new(),
            higher_order_caller: callers,
        };
    }

    /// Closes the current scope, returning it detached from its outer scope,
    /// which becomes current again.
    pub fn pop(&mut self) -> (popped: Context)
        requires
            old(self).outer is Some,
        ensures
            popped_from(*old(self), *final(self), popped),
    {
        let mut cur = Context::default();
        std::mem::swap(self, &mut cur);
        let parent = cur.outer.take();
        match parent {
            Some(p) => {
                *self = *p;
            },
            None => {},
        }
        cur
    }

    /// Closes a module scope: a detached scope is taken whole; a nested one
    /// is popped only if it is a module.
    pub fn pop_mod(&mut self) -> (popped: Option<Context>)
        ensures
            old(self).outer is None ==> popped == Some(*old(self)) && final(self).name@
                == "<dummy>"@ && final(self).kind is Dummy && final(self).outer is None
                && final(self).params@.len() == 0 && final(self).params_spec@.len() == 0
                && final(self).higher_order_caller@.len() == 0,
            old(self).outer is Some && old(self).kind is Module ==> (popped matches Some(p)
                && popped_from(*old(self), *final(self), p)),
            old(self).outer is Some && !(old(self).kind is Module) ==> popped is None
                && *final(self) == *old(self),
    {
        if self.outer.is_some() {
            if self.kind.is_module() {
                Some(self.pop())
            } else {
                None
            }
        } else {
            let mut top = Context::default();
            std::mem::swap(self, &mut top);
            Some(top)
        }
    }
}

/// `after` is `before` with a scope named `name` of kind `kind` opened in it.
pub open spec fn grown_from(
    before: Context,
    name: Seq<char>,
    kind: ContextKind,
    is_public: bool,
    after: Context,
) -> bool {
    &&& after.name@ == child_name(before.name@, name, kind is Module, is_public)
    &&& after.kind == kind
    &&& after.outer == Some(Box::new(before))
    &&& after.params@.len() == 0
    &&& after.params_spec@.len() == 0
    &&& after.higher_order_caller@ == before.higher_order_caller@
}

/// `c` is a fresh scope named `name` of kind `kind`, made with the
/// parameters `params` inside `outer`.
pub open spec fn made_as(
    c: Context,
    name: String,
    kind: ContextKind,
    params: Seq<ParamSpec>,
    outer: Option<Context>,
) -> bool {
    &&& c.name == name
    &&& c.kind == kind
    &&& c.outer == match outer {
        Some(o) => Some(Box::new(o)),
        None => None::<Box<Context>>,
    }
    &&& c.params@ == param_entries(name, params)
    &&& c.params_spec@ == params
    &&& c.higher_order_caller@.len() == 0
}

/// `after` is `before` with its innermost scope closed and handed back,
/// detached, as `popped`.
pub open spec fn popped_from(before: Context, after: Context, popped: Context) -> bool {
    &&& before.outer is Some
    &&& after == *before.outer.unwrap()
    &&& popped.name == before.name
    &&& popped.kind == before.kind
    &&& popped.params == before.params
    &&& popped.params_spec == before.params_spec
    &&& popped.higher_order_caller == before.higher_order_caller
    &&& popped.outer is None
}

/// Opening a scope and closing it again restores the scope that was
/// current, and hands back the opened scope, detached, under its new name.
pub proof fn lemma_grow_then_pop(
    c0: Context,
    name: Seq<char>,
    kind: ContextKind,
    is_public: bool,
    c1: Context,
    c2: Context,
    popped: Context,
)
    requires
        grown_from(c0, name, kind, is_public, c1),
        popped_from(c1, c2, popped),
    ensures
        c2 == c0,
        popped.name@ == child_name(c0.name@, name, kind is Module, is_public),
        popped.kind == kind,
        popped.higher_order_caller@ == c0.higher_order_caller@,
{
}

impl Context {
    /// A scope without parameters.
    pub fn mono(name: String, kind: ContextKind, outer: Option<Context>) -> (c: Self)
        ensures
            made_as(c, name, kind, Seq::empty(), outer),
    {
        Context::new(name, kind, Vec::new(), outer)
    }

    /// A scope with parameters.
    pub fn poly(name: String, kind: ContextKind, params: Vec<ParamSpec>, outer: Option<Context>) -> (c:
        Self)
        ensures
            made_as(c, name, kind, params@, outer),
    {
        Context::with_capacity(name, kind, params, outer)
    }

    /// The detached scope of a trait with parameters.
    pub fn poly_trait(name: String, params: Vec<ParamSpec>) -> (c: Self)
        ensures
            made_as(c, name, ContextKind::Trait, params@, None),
    {
        Context::poly(name, ContextKind::Trait, params, None)
    }

    /// The scope of a built-in trait with parameters.
    pub fn builtin_poly_trait(name: String, params: Vec<ParamSpec>) -> (c: Self)
        ensures
            made_as(c, name, ContextKind::Trait, params@, None),
    {
        Context::poly_trait(name, params)
    }

    /// The detached scope of a class with parameters.
    pub fn poly_class(name: String, params: Vec<ParamSpec>) -> (c: Self)
        ensures
            made_as(c, name, ContextKind::Class, params@, None),
    {
        Context::poly(name, ContextKind::Class, params, None)
    }

    /// The scope of a built-in class with parameters.
    pub fn builtin_poly_class(name: String, params: Vec<ParamSpec>) -> (c: Self)
        ensures
            made_as(c, name, ContextKind::Class, params@, None),
    {
        Context::poly_class(name, params)
    }

    /// The detached scope of a patch of `base` with parameters.
    pub fn poly_patch(name: String, base: TypeInfo, params: Vec<ParamSpec>) -> (c: Self)
        ensures
            made_as(c, name, ContextKind::Patch(base), params@, None),
    {
        Context::poly(name, ContextKind::Patch(base), params, None)
    }

    /// The detached scope of a trait without parameters.
    pub fn mono_trait(name: String) -> (c: Self)
        ensures
            made_as(c, name, ContextKind::Trait, Seq::empty(), None),
    {
        Context::poly_trait(name, Vec::new())
    }

    /// The scope of a built-in trait without parameters.
    pub fn builtin_mono_trait(name: String) -> (c: Self)
        ensures
            made_as(c, name, ContextKind::Trait, Seq::empty(), None),
    {
        Context::mono_trait(name)
    }

    /// The detached scope of a class without parameters.
    pub fn mono_class(name: String) -> (c: Self)
        ensures
            made_as(c, name, ContextKind::Class, Seq::empty(), None),
    {
        Context::poly_class(name, Vec::new())
    }

    /// The scope of a built-in class without parameters.
    pub fn builtin_mono_class(name: String) -> (c: Self)
        ensures
            made_as(c, name, ContextKind::Class, Seq::empty(), None),
    {
        Context::mono_class(name)
    }

    /// The detached scope of a patch of `base` without parameters.
    pub fn mono_patch(name: String, base: TypeInfo) -> (c: Self)
        ensures
            made_as(c, name, ContextKind::Patch(base), Seq::empty(), None),
    {
        Context::poly_patch(name, base, Vec::new())
    }

    /// The detached scope of a patch that makes `base` implement `impls`.
    pub fn poly_glue_patch(name: String, base: TypeInfo, impls: TypeInfo, params: Vec<ParamSpec>) -> (c:
        Self)
        ensures
            made_as(
                c,
                name,
                ContextKind::GluePatch(Box::new(TraitImpl { sub_type: base, sup_trait: impls })),
                params@,
                None,
            ),
    {
        Context::poly(
            name,
            ContextKind::GluePatch(Box::new(TraitImpl::new(base, impls))),
            params,
            None,
        )
    }

    /// The scope of a built-in glue patch.
    pub fn builtin_poly_glue_patch(
        name: String,
        base: TypeInfo,
        impls: TypeInfo,
        params: Vec<ParamSpec>,
    ) -> (c: Self)
        ensures
            made_as(
                c,
                name,
                ContextKind::GluePatch(Box::new(TraitImpl { sub_type: base, sup_trait: impls })),
                params@,
                None,
            ),
    {
        Context::poly_glue_patch(name, base, impls, params)
    }

    /// The scope of a built-in patch of `impls`.
    pub fn builtin_patch(name: String, impls: TypeInfo, params: Vec<ParamSpec>) -> (c: Self)
        ensures
            made_as(c, name, ContextKind::Patch(impls), params@, None),
    {
        Context::poly(name, ContextKind::Patch(impls), params, None)
    }

    /// The detached scope of a module.
    pub fn module(name: String) -> (c: Self)
        ensures
            made_as(c, name, ContextKind::Module, Seq::empty(), None),
    {
        Context::with_capacity(name, ContextKind::Module, Vec::new(), None)
    }

    /// The scope of a built-in module.
    pub fn builtin_module(name: String) -> (c: Self)
        ensures
            made_as(c, name, ContextKind::Module, Seq::empty(), None),
    {
        Context::module(name)
    }

    /// A scope for instant evaluation inside `outer`.
    pub fn instant(name: String, outer: Context) -> (c: Self)
        ensures
            made_as(c, name, ContextKind::Instant, Seq::empty(), Some(outer)),
    {
        Context::with_capacity(name, ContextKind::Instant, Vec::new(), Some(outer))
    }

    /// Resets a top-level scope: only its name and kind are kept.
    pub fn initialize(&mut self)
        ensures
            made_as(*final(self), old(self).name, old(self).kind, Seq::empty(), None),
    {
        let mut top = Context::default();
        std::mem::swap(self, &mut top);
        let Context { name, kind, .. } = top;
        *self = Context::new(name, kind, Vec::new(), None);
    }
}

/// Opening a scope that is not a module keeps the module path, the
/// nearest module scope of a module, and the control-flow call being
/// checked; a module scope is its own path.
pub proof fn lemma_grow_keeps_module(
    c0: Context,
    name: Seq<char>,
    kind: ContextKind,
    is_public: bool,
    c1: Context,
)
    requires
        grown_from(c0, name, kind, is_public, c1),
    ensures
        !(kind is Module) ==> path_of(c1) == path_of(c0),
        !(kind is Module) && c0.kind is Module ==> module_of(c1) == Some(c0),
        kind is Module ==> path_of(c1) == replace_all(c1.name@, ".__init__"@, ""@),
        current_control_flow_of(c1) == current_control_flow_of(c0),
{
}

/// The kind of scope a definition opens, by what it defines: classes,
/// traits and modules open scopes of their kind, a subroutine a function or
/// procedure scope, anything else (patches included) an instant scope.
pub open spec fn def_context_kind(d: Def) -> ContextKind {
    match def_kind_of(d) {
        DefKind::Class | DefKind::Inherit => ContextKind::Class,
        DefKind::Trait | DefKind::Subsume => ContextKind::Trait,
        DefKind::StructuralTrait => ContextKind::StructuralTrait,
        DefKind::ErgImport | DefKind::PyImport | DefKind::RsImport | DefKind::InlineModule => ContextKind::Module,
        DefKind::Other => match d.sig {
            Signature::Subr(s) => if is_procedural_name(s.ident.name@) {
                ContextKind::Proc
            } else {
                ContextKind::Func
            },
            _ => ContextKind::Instant,
        },
        DefKind::Patch => ContextKind::Instant,
    }
}

impl ContextKind {
    /// The kind of scope the definition `def` opens.
    pub fn from(def: &Def) -> (k: ContextKind)
        ensures
            k == def_context_kind(*def),
    {
        match def.def_kind() {
            DefKind::Class | DefKind::Inherit => ContextKind::Class,
            DefKind::Trait | DefKind::Subsume => ContextKind::Trait,
            DefKind::StructuralTrait => ContextKind::StructuralTrait,
            DefKind::ErgImport | DefKind::PyImport | DefKind::RsImport | DefKind::InlineModule => {
                ContextKind::Module
            },
            DefKind::Other => match &def.sig {
                Signature::Subr(s) => if s.ident.is_procedural() {
                    ContextKind::Proc
                } else {
                    ContextKind::Func
                },
                _ => ContextKind::Instant,
            },
            DefKind::Patch => ContextKind::Instant,
        }
    }
}

impl Context {
    /// Enters the scope `new`: the current scope becomes its outer scope,
    /// and the callers being checked are carried over.
    pub fn replace(&mut self, new: Context)
        ensures
            final(self).name == new.name,
            final(self).kind == new.kind,
            final(self).params == new.params,
            final(self).params_spec == new.params_spec,
            final(self).outer == Some(Box::new(*old(self))),
            final(self).higher_order_caller@ == old(self).higher_order_caller@,
    {
        let callers = clone_strings(&self.higher_order_caller);
        let mut prev = Context::default();
        std::mem::swap(self, &mut prev);
        let Context { name, kind, params, params_spec, .. } = new;
        *self = Context {
            name,
            kind,
            outer: Some(Box::new(prev)),
            params,
            params_spec,
            higher_order_caller: callers,
        };
    }
}

impl Context {
    /// A mutable reference to the enclosing scope.
    pub fn get_mut_outer(&mut self) -> (o: Option<&mut Context>)
        ensures
            match old(self).outer {
                Some(b) => o matches Some(r) && *r == *b && *final(self) == (Context {
                    outer: Some(Box::new(*final(r))),
                    ..*old(self)
                }),
                None => o is None && *final(self) == *old(self),
            },
    {
        match &mut self.outer {
            Some(b) => Some(&mut **b),
            None => None,
        }
    }
}

/// The type a method block is defined for: a class, or a class together
/// with the trait it implements.
#[derive(Debug, Clone)]
pub enum ClassDefType {
    Simple(TypeInfo),
    ImplTrait { class: TypeInfo, impl_trait: TypeInfo },
}

impl ClassDefType {
    pub fn impl_trait(class: TypeInfo, impl_trait: TypeInfo) -> (c: Self)
        ensures
            c == (ClassDefType::ImplTrait { class, impl_trait }),
    {
        ClassDefType::ImplTrait { class, impl_trait }
    }

    pub open spec fn spec_class(&self) -> TypeInfo {
        match *self {
            ClassDefType::Simple(c) => c,
            ClassDefType::ImplTrait { class, .. } => class,
        }
    }

    pub fn get_class(&self) -> (c: &TypeInfo)
        ensures
            *c == self.spec_class(),
    {
        match self {
            ClassDefType::Simple(c) => c,
            ClassDefType::ImplTrait { class, .. } => class,
        }
    }

    pub fn get_impl_trait(&self) -> (t: Option<&TypeInfo>)
        ensures
            t == match *self {
                ClassDefType::ImplTrait { impl_trait, .. } => Some(&impl_trait),
                _ => None::<&TypeInfo>,
            },
    {
        match self {
            ClassDefType::Simple(_) => None,
            ClassDefType::ImplTrait { impl_trait, .. } => Some(impl_trait),
        }
    }

    /// Whether the methods are defined for the class `t`.
    pub fn is_class_of(&self, t: &TypeInfo) -> (b: bool)
        ensures
            b == (self.spec_class()@ == t@),
    {
        self.get_class().is_same(t)
    }

    /// Whether the methods implement the trait `trait_`.
    pub fn is_impl_of(&self, trait_: &TypeInfo) -> (b: bool)
        ensures
            b == (*self matches ClassDefType::ImplTrait { impl_trait, .. } && impl_trait@ == trait_@),
    {
        match self {
            ClassDefType::ImplTrait { impl_trait, .. } => impl_trait.is_same(trait_),
            _ => false,
        }
    }
}

/// The scope of a block of methods, with the id of its definition and the
/// type it is defined for.
#[derive(Debug)]
pub struct MethodContext {
    pub id: u64,
    pub typ: ClassDefType,
    pub ctx: Context,
}

impl MethodContext {
    pub fn new(id: u64, typ: ClassDefType, ctx: Context) -> (m: Self)
        ensures
            m == (MethodContext { id, typ, ctx }),
    {
        MethodContext { id, typ, ctx }
    }
}

/// The scope of a type, with the type.
#[derive(Debug)]
pub struct TypeContext {
    pub typ: TypeInfo,
    pub ctx: Context,
}

impl TypeContext {
    pub fn new(typ: TypeInfo, ctx: Context) -> (t: Self)
        ensures
            t == (TypeContext { typ, ctx }),
    {
        TypeContext { typ, ctx }
    }
}

/// A method and the type that defines it.
#[derive(Debug)]
pub struct MethodPair {
    pub definition_type: TypeInfo,
    pub method_info: VarInfo,
}

impl MethodPair {
    pub fn new(definition_type: TypeInfo, method_info: VarInfo) -> (m: Self)
        ensures
            m == (MethodPair { definition_type, method_info }),
    {
        MethodPair { definition_type, method_info }
    }
}

/// The top-level scope of a module with the scopes of its definitions, by
/// name.
#[derive(Debug)]
pub struct ModuleContext {
    pub context: Context,
    pub scope: Vec<(String, Context)>,
}

impl ModuleContext {
    pub fn new(toplevel: Context, scope: Vec<(String, Context)>) -> (m: Self)
        ensures
            m == (ModuleContext { context: toplevel, scope }),
    {
        ModuleContext { context: toplevel, scope }
    }
}


/// The control kind of the scope is that of the innermost higher-order
/// callee that is a control-flow call: that callee names a control kind,
/// and no callee inside it does; there is none exactly when no callee is a
/// control-flow call. In particular the innermost callee's own kind, when it
/// has one, is the scope's (`current_control_flow`).
pub proof fn lemma_control_kind_is_innermost(c: Context)
    ensures
        ({
            let cs = c.higher_order_caller@;
            match last_control_kind(cs) {
                Some(k) => exists|i: int|
                    0 <= i < cs.len() && control_kind_of(#[trigger] cs[i]@) == Some(k) && forall|j: int|
                        i < j < cs.len() ==> control_kind_of(#[trigger] cs[j]@) is None,
                None => forall|i: int| 0 <= i < cs.len() ==> control_kind_of(#[trigger] cs[i]@) is None,
            }
        }),
        current_control_flow_of(c) is Some ==> last_control_kind(c.higher_order_caller@)
            == current_control_flow_of(c),
{
    lemma_last_control_kind_innermost(c.higher_order_caller@);
}

proof fn lemma_last_control_kind_innermost(cs: Seq<String>)
    ensures
        match last_control_kind(cs) {
            Some(k) => exists|i: int|
                0 <= i < cs.len() && control_kind_of(#[trigger] cs[i]@) == Some(k) && forall|j: int|
                    i < j < cs.len() ==> control_kind_of(#[trigger] cs[j]@) is None,
            None => forall|i: int| 0 <= i < cs.len() ==> control_kind_of(#[trigger] cs[i]@) is None,
        },
    decreases cs.len(),
{
    if cs.len() > 0 {
        let n = cs.len() - 1;
        if control_kind_of(cs[n]@) is Some {
            assert(control_kind_of(cs[n]@) == last_control_kind(cs));
        } else {
            let rest = cs.drop_last();
            lemma_last_control_kind_innermost(rest);
            match last_control_kind(rest) {
                Some(k) => {
                    let i = choose|i: int|
                        0 <= i < rest.len() && control_kind_of(#[trigger] rest[i]@) == Some(k)
                            && forall|j: int|
                            i < j < rest.len() ==> control_kind_of(#[trigger] rest[j]@) is None;
                    assert(cs[i] == rest[i]);
                    assert forall|j: int| i < j < cs.len() implies control_kind_of(
                        #[trigger] cs[j]@,
                    ) is None by {
                        if j < n {
                            assert(cs[j] == rest[j]);
                        }
                    }
                },
                None => {
                    assert forall|i: int| 0 <= i < cs.len() implies control_kind_of(
                        #[trigger] cs[i]@,
                    ) is None by {
                        if i < n {
                            assert(cs[i] == rest[i]);
                        }
                    }
                },
            }
        }
    }
}

} // verus!
