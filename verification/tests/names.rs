use erg_compiler::context::{
    Context, ContextKind, ControlKind, DefaultInfo, RegistrationMode, Variance,
};
use erg_compiler::error::{
    binop_to_dname, concat_result, decimal_string, ordinal_num, readable_name, unaryop_to_dname,
    CompileError, CompileErrors, ErrorKind, Location,
};
use erg_compiler::instantiate_spec::{token_kind_to_op_kind, OpKind, ParamKind};
use erg_compiler::token::{Token, TokenKind};
use erg_compiler::ty::TypeInfo;

#[test]
fn binop_names() {
    assert_eq!(binop_to_dname("+"), Some("__add__"));
    assert_eq!(binop_to_dname("//"), Some("__floordiv__"));
    assert_eq!(binop_to_dname("and"), Some("__and__"));
    assert_eq!(binop_to_dname("&&"), Some("__and__"));
    assert_eq!(binop_to_dname("isnot!"), Some("__isnot__!"));
    assert_eq!(binop_to_dname("<..<"), Some("__orng__"));
    assert_eq!(binop_to_dname(">>"), Some("__rshift__"));
    assert_eq!(binop_to_dname("in"), None);
    assert_eq!(binop_to_dname(""), None);
}

#[test]
fn unaryop_names() {
    assert_eq!(unaryop_to_dname("-"), Some("__neg__"));
    assert_eq!(unaryop_to_dname("!"), Some("__mutate__"));
    assert_eq!(unaryop_to_dname("..."), Some("__spread__"));
    assert_eq!(unaryop_to_dname("*"), None);
}

#[test]
fn readable_names() {
    assert_eq!(readable_name("__add__"), "`+`");
    assert_eq!(readable_name("__pos__"), "`+`");
    assert_eq!(readable_name("__is__!"), "`is!`");
    assert_eq!(readable_name("__spread__"), "`...`");
    assert_eq!(readable_name("foo"), "foo");
    // a binary operator's method shows as the operator again
    assert_eq!(readable_name(binop_to_dname("<=").unwrap()), "`<=`");
}

#[test]
fn ordinals() {
    assert_eq!(ordinal_num(1), "1st");
    assert_eq!(ordinal_num(2), "2nd");
    assert_eq!(ordinal_num(3), "3rd");
    assert_eq!(ordinal_num(4), "4th");
    assert_eq!(ordinal_num(0), "0th");
    assert_eq!(ordinal_num(11), "11st");
    assert_eq!(ordinal_num(12), "12nd");
    assert_eq!(ordinal_num(21), "21st");
    assert_eq!(ordinal_num(100), "100th");
    assert_eq!(decimal_string(0), "0");
    assert_eq!(decimal_string(9876543210), "9876543210");
    assert_eq!(decimal_string(usize::MAX), usize::MAX.to_string());
}

fn err(desc: &str) -> CompileError {
    CompileError::new(0, Location::Unknown, ErrorKind::HasEffect, desc.to_string(), None, "<module>".to_string())
}

#[test]
fn concat_results() {
    assert!(concat_result(Ok(()), Ok(())).is_ok());
    let r = concat_result(Ok(()), Err(CompileErrors::single(err("b")))).unwrap_err();
    assert_eq!(r.len(), 1);
    assert_eq!(r.0[0].desc, "b");
    let r = concat_result(Err(CompileErrors::single(err("a"))), Ok(())).unwrap_err();
    assert_eq!(r.0[0].desc, "a");
    let r = concat_result(
        Err(CompileErrors::single(err("a"))),
        Err(CompileErrors::from_vec(vec![err("b"), err("c")])),
    )
    .unwrap_err();
    let descs: Vec<&str> = r.0.iter().map(|e| e.desc.as_str()).collect();
    assert_eq!(descs, vec!["a", "b", "c"]);
}

#[test]
fn errors_container() {
    let mut errs = CompileErrors::empty();
    assert!(errs.is_empty());
    errs.push(err("a"));
    errs.extend(CompileErrors::single(err("b")));
    assert_eq!(errs.len(), 2);
    let taken = errs.take();
    assert_eq!(taken.len(), 2);
    assert!(errs.is_empty());
    let e = CompileError::feature_error(1, here(), "with", "<module>".to_string());
    assert_eq!(e.desc, "this feature(with) is not implemented yet");
    assert_eq!(e.kind, ErrorKind::FeatureError);
    assert_eq!(CompileError::system_exit().desc, "system is exiting");
    assert_eq!(CompileError::system_exit().loc, Location::Unknown);
    assert_eq!(CompileError::system_exit().errno, 0);
    assert_eq!(e.errno, 1);
    assert_eq!(e.loc, here());
}

#[test]
fn control_kinds() {
    assert_eq!(ControlKind::try_from("if"), Ok(ControlKind::If));
    assert_eq!(ControlKind::try_from("if!"), Ok(ControlKind::If));
    assert_eq!(ControlKind::try_from("while!"), Ok(ControlKind::While));
    // `while` without `!` is a control flow only in Python-compatible mode
    assert_eq!(ControlKind::try_from("while"), Err(()));
    assert_eq!(ControlKind::try_from("for!"), Ok(ControlKind::For));
    assert_eq!(ControlKind::try_from("discard"), Ok(ControlKind::Discard));
    assert_eq!(ControlKind::try_from("discard!"), Err(()));
    assert_eq!(ControlKind::try_from("print!"), Err(()));
    assert!(ControlKind::If.is_if());
    assert!(ControlKind::While.is_conditional());
    assert!(!ControlKind::For.is_conditional());
    assert!(!ControlKind::Assert.makes_scope());
    assert!(ControlKind::With.makes_scope());
    assert_eq!(ControlKind::Match.name(), "match");
}

#[test]
fn small_kinds() {
    assert!(DefaultInfo::WithDefault.has_default());
    assert!(!DefaultInfo::NonDefault.has_default());
    assert!(RegistrationMode::PreRegister.is_preregister());
    assert!(RegistrationMode::Normal.is_normal());
    let t = TypeInfo::plain("Int".to_string());
    let k = ParamKind::Default(t);
    assert!(k.is_default());
    assert_eq!(k.default_info(), DefaultInfo::WithDefault);
    assert_eq!(ParamKind::VarParams.default_info(), DefaultInfo::NonDefault);
    assert!(ParamKind::KwVarParams.is_kw_var_params());
    assert!(ContextKind::MethodDefs(Some(TypeInfo::plain("Eq".to_string()))).is_trait_impl());
    assert!(!ContextKind::MethodDefs(None).is_trait_impl());
    assert!(ContextKind::MethodDefs(None).is_method_def());
    assert!(ContextKind::LambdaProc(None).is_subr());
    assert!(ContextKind::StructuralTrait.is_trait());
    assert!(ContextKind::StructuralTrait.is_type());
    assert_eq!(ContextKind::LambdaFunc(Some(ControlKind::For)).control_kind(), Some(ControlKind::For));
    assert_eq!(ContextKind::Func.control_kind(), None);
}

#[test]
fn variance_composition() {
    let (co, contra, inv) = (Variance::Covariant, Variance::Contravariant, Variance::Invariant);
    assert_eq!(contra.mul(contra), co);
    assert_eq!(co.mul(contra), contra);
    assert_eq!(inv.mul(co), inv);
    assert_eq!(co.mul(co), co);
    for a in [co, contra, inv] {
        for b in [co, contra, inv] {
            assert_eq!(a.mul(b), b.mul(a));
        }
    }
    assert!(Variance::default().is_invariant());
}

#[test]
fn op_kinds() {
    assert_eq!(token_kind_to_op_kind(TokenKind::Plus), Some(OpKind::Add));
    assert_eq!(token_kind_to_op_kind(TokenKind::PreMinus), Some(OpKind::Neg));
    assert_eq!(token_kind_to_op_kind(TokenKind::GreEq), Some(OpKind::Ge));
    assert_eq!(token_kind_to_op_kind(TokenKind::Shr), Some(OpKind::Shr));
    assert_eq!(token_kind_to_op_kind(TokenKind::IsOp), None);
    assert_eq!(token_kind_to_op_kind(TokenKind::Symbol), None);
    let t = Token::from_str(TokenKind::Symbol, "print!");
    assert!(t.is_procedural());
    assert!(Token::from_str(TokenKind::NatLit, "1").is_number());
    assert!(Token::from_str(TokenKind::DocComment, "doc").is_str());
}

fn module(name: &str) -> Context {
    Context::new(name.to_string(), ContextKind::Module, vec![], None)
}

#[test]
fn scopes() {
    let mut ctx = module("<module>");
    ctx.grow("f", ContextKind::Func, false);
    assert_eq!(ctx.name, "<module>::f");
    assert_eq!(ctx.caused_by(), "<module>::f");
    ctx.grow("g", ContextKind::Proc, true);
    assert_eq!(ctx.name, "<module>::f.g");
    assert_eq!(ctx.path(), "<module>");
    assert_eq!(ctx.get_module().unwrap().name, "<module>");
    let g = ctx.pop();
    assert_eq!(g.name, "<module>::f.g");
    assert!(g.outer.is_none());
    assert_eq!(ctx.name, "<module>::f");
    let f = ctx.pop();
    assert_eq!(f.name, "<module>::f");
    assert_eq!(ctx.name, "<module>");
    assert!(ctx.outer.is_none());
    // a nested module is named by itself
    ctx.grow("sub", ContextKind::Module, true);
    assert_eq!(ctx.name, "sub");
    let sub = ctx.pop_mod().unwrap();
    assert_eq!(sub.name, "sub");
    let top = ctx.pop_mod().unwrap();
    assert_eq!(top.name, "<module>");
    assert_eq!(ctx.name, "<dummy>");
}

#[test]
fn scope_paths_and_outer_scopes() {
    let pkg = module("pkg.__init__");
    assert_eq!(pkg.path(), "pkg");
    let inner = Context::new("m".to_string(), ContextKind::Module, vec![], Some(pkg));
    // a module does not see into the module that imports it
    assert!(inner.get_outer_scope().is_none());
    assert!(inner.get_outer().is_some());
    let builtins = module("<builtins>");
    let m = Context::new("m".to_string(), ContextKind::Module, vec![], Some(builtins));
    // both scopes are modules, whatever the outer one is called
    assert!(m.get_outer_scope().is_none());
    let f = Context::new("f".to_string(), ContextKind::Func, vec![], Some(m));
    assert_eq!(f.get_outer_scope().unwrap().name, "m");
    let mut nested = Context::default_with_name("x");
    assert!(nested.get_module().is_none());
    nested.kind = ContextKind::Instant;
    assert_eq!(nested.path(), "x");
}

#[test]
fn control_flow_scopes() {
    let m = module("<module>");
    let mut f = Context::new("<module>::f".to_string(), ContextKind::Func, vec![], Some(m));
    assert_eq!(f.current_true_function_ctx().unwrap().name, "<module>::f");
    let mut block = Context::new(
        "<module>::f::<lambda>".to_string(),
        ContextKind::LambdaProc(Some(ControlKind::For)), vec![], None);
    f.higher_order_caller.push("for!".to_string());
    block.higher_order_caller = vec!["map".to_string(), "for!".to_string()];
    assert_eq!(block.current_control_flow(), Some(ControlKind::For));
    assert_eq!(block.control_kind(), Some(ControlKind::For));
    block.outer = Some(Box::new(f));
    // the block of `for!` does not create a scope: the function does
    let outer_fn = block.current_true_function_ctx();
    assert!(outer_fn.is_none());
    block.higher_order_caller = vec!["for!".to_string(), "map".to_string()];
    assert_eq!(block.current_control_flow(), None);
    assert_eq!(block.control_kind(), Some(ControlKind::For));
    assert_eq!(block.current_true_function_ctx().unwrap().name, "<module>::f::<lambda>");
    assert!(block.impl_of().is_none());
    let mdefs = Context::new(
        "C".to_string(),
        ContextKind::MethodDefs(Some(TypeInfo::plain("Eq".to_string()))), vec![], None);
    assert_eq!(mdefs.impl_of().unwrap().name, "Eq");
}

#[test]
fn operator_methods_read_as_operators() {
    for op in ["+", "-", "~", "!", "..."] {
        let d = unaryop_to_dname(op).unwrap();
        assert_eq!(readable_name(d), format!("`{op}`"));
    }
    let plain = [
        "+", "-", "*", "/", "//", "**", "%", "@", "..", "<..", "..<", "<..<", "and", "or", "as",
        "contains", "subof", "supof", "is!", "isnot!", "==", "!=", "<", "<=", ">", ">=", "<<", ">>",
    ];
    for op in plain {
        let d = binop_to_dname(op).unwrap();
        assert_eq!(readable_name(d), format!("`{op}`"));
    }
    // the symbolic spellings of the logical operators share their methods
    assert_eq!(readable_name(binop_to_dname("&&").unwrap()), "`and`");
    assert_eq!(readable_name(binop_to_dname("|").unwrap()), "`or`");
    // exclusive or has no operator form among the readable names
    assert_eq!(readable_name(binop_to_dname("^").unwrap()), "__xor__");
}

/// A location of one character on the second line.
fn here() -> Location {
    Location::Range { ln_begin: 2, col_begin: 0, ln_end: 2, col_end: 1 }
}
