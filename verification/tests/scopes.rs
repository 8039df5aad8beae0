use erg_compiler::context::{
    ClassDefType, Context, ContextKind, DefaultInfo, MethodContext, MethodPair, ModuleContext,
    ParamSpec, TraitImpl, TypeContext,
};
use erg_compiler::error::{CompileError, Location, CompileErrors, ErrorKind};
use erg_compiler::hir::{
    Accessor, Args, Block, Def, DefBody, Expr, Identifier, NonDefaultParamSignature, ParamBinding, Params,
    Signature, SubrSignature, VarInfo, VarSignature, VisModifierSpec,
};
use erg_compiler::register::valid_mod_name;
use erg_compiler::ty::TypeInfo;

fn int_t() -> TypeInfo {
    TypeInfo::plain("Int".to_string())
}

#[test]
fn parameter_specs() {
    let p = ParamSpec::named_nd("T".to_string(), int_t());
    assert_eq!(p.name.as_deref(), Some("T"));
    assert!(!p.has_default());
    assert!(!p.is_var_params);
    let d = ParamSpec::default("x".to_string(), int_t());
    assert!(d.has_default());
    let t = ParamSpec::t_nd("U".to_string());
    assert_eq!(t.t.name, "Type");
    assert_eq!(t.default_info, DefaultInfo::NonDefault);
    let v = ParamSpec::t("Ts".to_string(), true, DefaultInfo::WithDefault);
    assert!(v.is_var_params && v.has_default());
    let n = ParamSpec::new(None, int_t(), false, DefaultInfo::NonDefault);
    assert!(n.name.is_none());
    let c = ParamSpec::named("k".to_string(), int_t(), false, DefaultInfo::NonDefault).clone();
    assert_eq!(c.name.as_deref(), Some("k"));
}

#[test]
fn scopes_record_their_parameters() {
    let params = vec![
        ParamSpec::named_nd("T".to_string(), TypeInfo::plain("Type".to_string())),
        ParamSpec::new(None, int_t(), false, DefaultInfo::NonDefault),
    ];
    let ctx = Context::poly_class("List".to_string(), params);
    assert_eq!(ctx.name, "List");
    assert!(matches!(ctx.kind, ContextKind::Class));
    assert!(ctx.outer.is_none());
    assert_eq!(ctx.params_spec.len(), 2);
    assert_eq!(ctx.params.len(), 2);
    let (name, vi) = &ctx.params[0];
    assert_eq!(name.as_deref(), Some("T"));
    assert_eq!(vi.t.name, "Type");
    assert!(vi.is_parameter && !vi.is_public);
    assert_eq!(vi.def_namespace, "T");
    let (name, vi) = &ctx.params[1];
    assert!(name.is_none());
    assert_eq!(vi.def_namespace, "List");
}

#[test]
fn scope_constructors() {
    assert!(matches!(Context::mono_trait("Eq".to_string()).kind, ContextKind::Trait));
    assert!(matches!(Context::builtin_mono_trait("Eq".to_string()).kind, ContextKind::Trait));
    assert!(matches!(Context::builtin_poly_trait("Add".to_string(), vec![]).kind, ContextKind::Trait));
    assert!(matches!(Context::mono_class("Int".to_string()).kind, ContextKind::Class));
    assert!(matches!(Context::builtin_mono_class("Int".to_string()).kind, ContextKind::Class));
    assert!(matches!(Context::builtin_poly_class("Dict".to_string(), vec![]).kind, ContextKind::Class));
    assert!(matches!(Context::mono_patch("P".to_string(), int_t()).kind, ContextKind::Patch(ref b) if b.name == "Int"));
    assert!(matches!(Context::builtin_patch("P".to_string(), int_t(), vec![]).kind, ContextKind::Patch(_)));
    let glue = Context::builtin_poly_glue_patch("G".to_string(), int_t(), TypeInfo::plain("Eq".to_string()), vec![]);
    assert!(matches!(glue.kind, ContextKind::GluePatch(ref ti) if ti.sub_type.name == "Int" && ti.sup_trait.name == "Eq"));
    assert!(matches!(Context::builtin_module("math".to_string()).kind, ContextKind::Module));
    let m = Context::module("<module>".to_string());
    let inst = Context::instant("<instant>".to_string(), m);
    assert!(matches!(inst.kind, ContextKind::Instant));
    assert_eq!(inst.get_outer().unwrap().name, "<module>");
    let f = Context::mono("f".to_string(), ContextKind::Func, None);
    assert!(f.params.is_empty());
    let p = Context::poly("g".to_string(), ContextKind::Proc, vec![ParamSpec::named_nd("x".to_string(), int_t())], None);
    assert_eq!(p.params.len(), 1);
}

#[test]
fn initializing_keeps_name_and_kind() {
    let mut ctx = Context::poly_trait("Tr".to_string(), vec![ParamSpec::t_nd("T".to_string())]);
    ctx.higher_order_caller.push("for!".to_string());
    ctx.grow("f", ContextKind::Func, false);
    ctx.initialize();
    assert_eq!(ctx.name, "Tr::f");
    assert!(matches!(ctx.kind, ContextKind::Func));
    assert!(ctx.outer.is_none());
    assert!(ctx.params.is_empty());
    assert!(ctx.higher_order_caller.is_empty());
}

#[test]
fn class_def_types() {
    let simple = ClassDefType::Simple(int_t());
    assert_eq!(simple.get_class().name, "Int");
    assert!(simple.get_impl_trait().is_none());
    assert!(simple.is_class_of(&int_t()));
    assert!(!simple.is_class_of(&TypeInfo::plain("Str".to_string())));
    assert!(!simple.is_impl_of(&int_t()));
    let imp = ClassDefType::impl_trait(int_t(), TypeInfo::plain("Eq".to_string()));
    assert_eq!(imp.get_impl_trait().unwrap().name, "Eq");
    assert!(imp.is_impl_of(&TypeInfo::plain("Eq".to_string())));
    assert!(!imp.is_impl_of(&TypeInfo::mutable("Eq".to_string())));
    assert!(imp.is_class_of(&int_t()));
    let mc = MethodContext::new(7, imp, Context::mono_class("Int".to_string()));
    assert_eq!(mc.id, 7);
    let tc = TypeContext::new(int_t(), Context::mono_class("Int".to_string()));
    assert_eq!(tc.ctx.name, "Int");
    let vi = VarInfo { t: int_t(), is_public: true, def_namespace: "Int".to_string(), is_parameter: false, py_name: None };
    let pair = MethodPair::new(int_t(), vi);
    assert_eq!(pair.definition_type.name, "Int");
    let mctx = ModuleContext::new(Context::module("<module>".to_string()), vec![]);
    assert!(mctx.scope.is_empty());
    let ti = TraitImpl::new(int_t(), TypeInfo::plain("Eq".to_string()));
    assert_eq!(ti.sup_trait.name, "Eq");
}

#[test]
fn module_names() {
    assert!(valid_mod_name("math"));
    assert!(valid_mod_name("a/b"));
    assert!(!valid_mod_name(""));
    assert!(!valid_mod_name("/abs"));
    assert!(!valid_mod_name(" math"));
    assert!(!valid_mod_name("math\n"));
    assert!(!valid_mod_name("\u{3000}x"));
    assert!(!valid_mod_name("x\u{2003}"));
    assert!(!valid_mod_name("\u{85}x"));
    // a zero-width space is no white space
    assert!(valid_mod_name("x\u{200B}"));
}

fn vi() -> VarInfo {
    VarInfo { t: int_t(), is_public: false, def_namespace: "<module>".to_string(), is_parameter: false, py_name: None }
}

fn ident(name: &str) -> Identifier {
    Identifier::new(VisModifierSpec::Private, name.to_string(), None, vi())
}

fn def_calling(name: &str, callee: &str) -> Def {
    let body = Expr::Accessor(Accessor::Ident(ident(callee))).call_expr(Args::empty(), TypeInfo::none());
    Def::new(Signature::Var(VarSignature::new(ident(name), None)), DefBody::new(Block::new(vec![body])))
}

#[test]
fn scopes_opened_by_definitions() {
    assert!(matches!(ContextKind::from(&def_calling("C", "Class")), ContextKind::Class));
    assert!(matches!(ContextKind::from(&def_calling("D", "Inherit")), ContextKind::Class));
    assert!(matches!(ContextKind::from(&def_calling("T", "Trait")), ContextKind::Trait));
    assert!(matches!(ContextKind::from(&def_calling("m", "import")), ContextKind::Module));
    assert!(matches!(ContextKind::from(&def_calling("P", "Patch")), ContextKind::Instant));
    assert!(matches!(ContextKind::from(&def_calling("x", "f")), ContextKind::Instant));
    let subr = |name: &str| {
        Def::new(
            Signature::Subr(SubrSignature::new(ident(name), Params::empty(), None, vec![])),
            DefBody::new(Block::empty()),
        )
    };
    assert!(matches!(ContextKind::from(&subr("f")), ContextKind::Func));
    assert!(matches!(ContextKind::from(&subr("p!")), ContextKind::Proc));
}

#[test]
fn entering_a_scope() {
    let mut ctx = Context::module("<module>".to_string());
    ctx.higher_order_caller.push("for!".to_string());
    let inner = Context::poly("f".to_string(), ContextKind::Func, vec![ParamSpec::named_nd("x".to_string(), int_t())], None);
    ctx.replace(inner);
    assert_eq!(ctx.name, "f");
    assert!(matches!(ctx.kind, ContextKind::Func));
    assert_eq!(ctx.params.len(), 1);
    assert_eq!(ctx.get_outer().unwrap().name, "<module>");
    assert_eq!(ctx.higher_order_caller, vec!["for!".to_string()]);
    let popped = ctx.pop();
    assert_eq!(popped.name, "f");
    assert_eq!(ctx.name, "<module>");
}

#[test]
fn context_kind_predicates() {
    assert!(ContextKind::Class.is_class());
    assert!(ContextKind::Instant.is_instant());
    assert!(ContextKind::Patch(int_t()).is_patch());
    assert!(!ContextKind::Module.is_patch());
}

fn param_sig(name: Option<&str>) -> NonDefaultParamSignature {
    NonDefaultParamSignature::new(name.map(|n| n.to_string()), None, vi())
}

#[test]
fn parameters_are_registered_once() {
    let mut f = Context::new("<module>::f".to_string(), ContextKind::Func, vec![], None);
    let mut x = param_sig(Some("x"));
    assert!(f.assign_param(&mut x, Ok(int_t())).is_ok());
    assert_eq!(f.params.len(), 1);
    assert_eq!(f.params[0].0.as_deref(), Some("x"));
    assert_eq!(f.params[0].1.def_namespace, "<module>::f");
    assert!(f.params[0].1.is_parameter && !f.params[0].1.is_public);
    assert_eq!(x.vi.t.name, "Int");
    assert_eq!(x.vi.def_namespace, "<module>::f");
    assert!(f.registered_info("x", false).is_some());
    assert!(f.registered_info("y", false).is_none());

    // a second `x` is refused and changes nothing
    let mut again = param_sig(Some("x"));
    let errs = f.assign_param(&mut again, Ok(TypeInfo::plain("Str".to_string()))).unwrap_err();
    assert_eq!(errs.0.len(), 1);
    assert_eq!(errs.0[0].kind, ErrorKind::AssignError);
    assert_eq!(errs.0[0].caused_by, "<module>::f");
    assert!(errs.0[0].desc.starts_with("variable "));
    assert!(errs.0[0].desc.ends_with(" cannot be assigned more than once"));
    assert_eq!(f.params.len(), 1);
    assert_eq!(again.vi.t.name, "Int");

    // `_` and patterns may occur any number of times
    let mut u1 = param_sig(Some("_"));
    let mut u2 = param_sig(Some("_"));
    let mut pat = param_sig(None);
    assert!(f.assign_param(&mut u1, Ok(int_t())).is_ok());
    assert!(f.assign_param(&mut u2, Ok(int_t())).is_ok());
    assert!(f.assign_param(&mut pat, Ok(int_t())).is_ok());
    assert_eq!(f.params.len(), 4);
    assert_eq!(f.params[3].0.as_deref(), Some("_"));
}

#[test]
fn parameter_type_errors_are_returned() {
    let mut f = Context::new("<module>::g".to_string(), ContextKind::Func, vec![], None);
    let mut p = param_sig(Some("p"));
    let err = CompileError::new(0, Location::Unknown, ErrorKind::TypeError, "bad".to_string(), None, "<module>::g".to_string());
    let r = f.assign_param(&mut p, Err((TypeInfo::failure(), CompileErrors(vec![err]))));
    let errs = r.unwrap_err();
    assert_eq!(errs.0.len(), 1);
    assert_eq!(errs.0[0].desc, "bad");
    // the parameter is recorded all the same, with the fallback type
    assert_eq!(f.params.len(), 1);
    assert_eq!(p.vi.t.name, TypeInfo::failure().name);
}

#[test]
fn constants_are_looked_up_outward() {
    let m = Context::new(
        "<module>".to_string(),
        ContextKind::Module,
        vec![ParamSpec::named_nd("T".to_string(), int_t()), ParamSpec::named_nd("v".to_string(), int_t())],
        None,
    );
    let f = Context::new("<module>::f".to_string(), ContextKind::Func, vec![], Some(m));
    assert!(f.registered_info("T", true).is_some());
    assert!(f.registered_info("T", false).is_none());
    assert!(f.registered_info("v", false).is_none());
    let mut t = param_sig(Some("T"));
    let mut f = f;
    assert!(f.assign_param(&mut t, Ok(int_t())).is_err());
}

#[test]
fn reference_parameters_named_underscore_are_refused_again() {
    // `f(_, ref _)`: a second `_` bound by reference is a reassignment
    let mut f = Context::new("<module>::f".to_string(), ContextKind::Func, vec![], None);
    let mut first = param_sig(Some("_"));
    assert!(f.assign_param(&mut first, Ok(int_t())).is_ok());
    let mut by_ref = NonDefaultParamSignature::by_ref("_".to_string(), false, None, vi());
    let errs = f.assign_param(&mut by_ref, Ok(int_t())).unwrap_err();
    assert_eq!(errs.0.len(), 1);
    assert_eq!(errs.0[0].kind, ErrorKind::AssignError);
    let mut by_mut_ref = NonDefaultParamSignature::by_ref("_".to_string(), true, None, vi());
    assert!(f.assign_param(&mut by_mut_ref, Ok(int_t())).is_err());
    assert_eq!(f.params.len(), 1);
    // a fresh name bound by reference is recorded
    let mut r = NonDefaultParamSignature::by_ref("r".to_string(), true, None, vi());
    assert!(f.assign_param(&mut r, Ok(int_t())).is_ok());
    assert_eq!(f.params.len(), 2);
    assert_eq!(r.binding, ParamBinding::RefMut);
}
