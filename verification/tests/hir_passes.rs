use erg_compiler::desugar_hir::HIRDesugarer;
use erg_compiler::effectcheck::SideEffectChecker;
use erg_compiler::error::{ErrorKind, Location};
use erg_compiler::hir::{
    Accessor, Args, Attribute, BinOp, Block, Call, ClassDef, Def, DefBody, DefaultParamSignature,
    Expr, Identifier, KwArg, Lambda, List, Literal, Methods, Module, NonDefaultParamSignature,
    NormalList, ParamBinding, Params, PosArg, Record, RecordAttrs, Signature, SubrSignature, VarInfo,
    VarSignature, VisModifierSpec, HIR, AscriptionKind, TypeSpecWithOp,
};
use erg_compiler::token::{Token, TokenKind};
use erg_compiler::ty::TypeInfo;

fn vi(t: TypeInfo, ns: &str) -> VarInfo {
    VarInfo {
        t,
        is_public: false,
        def_namespace: ns.to_string(),
        is_parameter: false,
        py_name: None,
    }
}

fn ident(name: &str, t: TypeInfo) -> Identifier {
    Identifier::new(VisModifierSpec::Private, name.to_string(), None, vi(t, "<module>"))
}

fn int_t() -> TypeInfo {
    TypeInfo::plain("Int".to_string())
}

fn proc_t() -> TypeInfo {
    TypeInfo::procedure("() => NoneType".to_string())
}

fn var(name: &str, t: TypeInfo) -> Expr {
    Expr::Accessor(Accessor::Ident(ident(name, t)))
}

fn lit(n: &str) -> Expr {
    Expr::Literal(Literal { token: Token::from_str(TokenKind::NatLit, n), t: int_t() })
}

fn call(obj: Expr, args: Vec<Expr>, ret: TypeInfo) -> Expr {
    Expr::Call(Call {
        obj: Box::new(obj),
        attr_name: None,
        args: Args::values(args, None),
        t: ret,
        constructs_effectful_instance: false,
    })
}

fn var_def(name: &str, body: Vec<Expr>) -> Def {
    Def {
        sig: Signature::Var(VarSignature { ident: ident(name, int_t()), global: false, t_spec: None }),
        body: DefBody { block: Block::new(body) },
    }
}

fn subr_def(name: &str, params: Params, body: Vec<Expr>) -> Def {
    Def {
        sig: Signature::Subr(SubrSignature { ident: ident(name, int_t()), params, return_t_spec: None, captured_names: vec![] }),
        body: DefBody { block: Block::new(body) },
    }
}

fn print_call() -> Expr {
    call(var("print!", proc_t()), vec![lit("1")], TypeInfo::none())
}

fn check(module: Vec<Expr>) -> Result<HIR, (HIR, erg_compiler::error::CompileErrors)> {
    let hir = HIR { name: "<module>".to_string(), module: Module(module) };
    SideEffectChecker::new().check(hir, "<module>")
}

#[test]
fn args_operations() {
    let mut args = Args::values(vec![lit("1"), lit("2")], None);
    args.push_kw(KwArg { keyword: Token::from_str(TokenKind::Symbol, "z"), expr: lit("3") });
    args.push_kw(KwArg { keyword: Token::from_str(TokenKind::Symbol, "w"), expr: lit("4") });
    assert_eq!(args.len(), 4);
    assert_eq!(args.kw_len(), 2);
    assert!(!args.is_empty());
    assert!(matches!(args.get(2), Some(Expr::Literal(l)) if l.token.content == "3"));
    assert!(args.get(4).is_none());
    assert!(matches!(args.get_kw("w"), Some(Expr::Literal(l)) if l.token.content == "4"));
    assert!(args.get_kw("v").is_none());
    assert!(matches!(args.last(), Some(Expr::Literal(l)) if l.token.content == "4"));
    // try_remove((1, 2, z: 3, w: 4), 2) == Some(3)
    assert!(matches!(args.try_remove(2), Some(Expr::Literal(l)) if l.token.content == "3"));
    assert_eq!(args.len(), 3);
    assert!(args.try_remove(7).is_none());
    assert!(matches!(args.remove_left_or_key("w"), Some(Expr::Literal(l)) if l.token.content == "1"));
    assert!(matches!(args.remove(0), Expr::Literal(l) if l.token.content == "2"));
    assert!(matches!(args.get_left_or_key("w"), Some(Expr::Literal(l)) if l.token.content == "4"));
    assert!(matches!(args.remove_left_or_key("w"), Some(Expr::Literal(_))));
    assert!(args.remove_left_or_key("w").is_none());
    assert!(args.is_empty());
    args.insert_pos(0, PosArg { expr: lit("9") });
    args.push_pos(PosArg { expr: lit("8") });
    assert!(matches!(args.try_remove_pos(1), Some(p) if matches!(&p.expr, Expr::Literal(l) if l.token.content == "8")));
    assert!(args.try_remove_kw(0).is_none());
    assert_eq!(Args::single(PosArg { expr: lit("1") }).len(), 1);
    assert_eq!(Args::var_args(PosArg { expr: lit("1") }, None).len(), 1);
    assert!(Args::empty().is_empty());
}

#[test]
fn identifiers_and_blocks() {
    let p = ident("print!", proc_t());
    assert!(p.is_procedural());
    assert!(!p.is_const());
    assert!(ident("Int", int_t()).is_const());
    assert!(ident("Äpfel", int_t()).is_const());
    assert!(ident("_", int_t()).is_discarded());
    assert_eq!(p.to_string_notype(), "::print!");
    let mut pubx = ident("x", int_t());
    pubx.vis = VisModifierSpec::Public;
    assert_eq!(pubx.to_string_notype(), ".x");
    let mut b = Block::new(vec![lit("1"), Expr::Def(var_def("x", vec![lit("1")])), Expr::Def(var_def("x", vec![lit("2")]))]);
    assert_eq!(b.len(), 3);
    assert!(b.get_def("y").is_none());
    let d = b.remove_def("x").unwrap();
    assert!(matches!(&d.body.block.0[0], Expr::Literal(l) if l.token.content == "1"));
    assert_eq!(b.len(), 2);
    assert!(b.get_def("x").is_some());
    let mut attrs = RecordAttrs(vec![]);
    attrs.push(var_def("a", vec![lit("1")]));
    assert_eq!(attrs.len(), 1);
    assert!(attrs.get("a").is_some());
    assert!(attrs.get("b").is_none());
    let lam = Lambda {
        params: Params::empty(),
        op: Token::from_str(TokenKind::ProcArrow, "=>"),
        return_t_spec: None,
        captured_names: vec![],
        body: Block::empty(),
        id: 42,
        t: proc_t(),
    };
    assert!(lam.is_procedural());
    assert_eq!(lam.name_to_string(), "::<lambda_42>");
    assert_eq!(Expr::Lambda(lam).name(), "lambda");
    assert_eq!(Expr::Compound(Block::empty()).t().name, "Failure");
    assert_eq!(Expr::Def(var_def("x", vec![])).t().name, "NoneType");
    assert_eq!(Expr::Code(Block::new(vec![lit("1")])).t().name, "Int");
}

#[test]
fn root_objects() {
    let a = Expr::Accessor(Accessor::attr(var("a", int_t()), ident("b", int_t())));
    let ab_c = Accessor::attr(a, ident("c", int_t()));
    assert!(matches!(ab_c.root_obj(), Some(Expr::Accessor(Accessor::Ident(i))) if i.name == "a"));
    assert!(matches!(ab_c.last_name().as_str(), "c"));
    assert!(matches!(ab_c.obj(), Some(Expr::Accessor(Accessor::Attr(_)))));
    let lit_c = Accessor::attr(lit("1"), ident("c", int_t()));
    assert!(matches!(lit_c.root_obj(), Some(Expr::Literal(_))));
    assert!(Accessor::Ident(ident("a", int_t())).root_obj().is_none());
}

fn class_with(members: Vec<Expr>) -> ClassDef {
    ClassDef {
        sig: Signature::Var(VarSignature { ident: ident("C", int_t()), global: false, t_spec: None }),
        require_or_sup: None,
        methods_list: vec![Methods { class: int_t(), impl_trait: None, defs: Block::new(members) }],
    }
}

#[test]
fn desugar_moves_statics_out_of_classes() {
    // C.
    //     x = 1
    //     m(self) = ...
    //     a = C.x
    let members = vec![
        Expr::Def(var_def("x", vec![lit("1")])),
        Expr::Def(subr_def("m", Params::empty(), vec![lit("2")])),
        Expr::Def(var_def("a", vec![lit("3")])),
    ];
    let hir = HIR { name: "<module>".to_string(), module: Module(vec![Expr::ClassDef(class_with(members))]) };
    let out = HIRDesugarer::desugar(hir);
    assert_eq!(out.module.0.len(), 1);
    let Expr::Compound(block) = &out.module.0[0] else { panic!("expected a compound") };
    assert_eq!(block.0.len(), 3);
    let Expr::ClassDef(cd) = &block.0[0] else { panic!("expected the class first") };
    assert_eq!(cd.methods_list[0].defs.0.len(), 1);
    assert!(matches!(&cd.methods_list[0].defs.0[0], Expr::Def(d) if d.sig.inspect() == "m"));
    for (i, name) in [(1, "x"), (2, "a")] {
        let Expr::ReDef(redef) = &block.0[i] else { panic!("expected a re-definition") };
        let Accessor::Attr(Attribute { obj, ident }) = &redef.attr else { panic!("expected C.{name}") };
        assert_eq!(ident.name, name);
        assert!(matches!(&**obj, Expr::Accessor(Accessor::Ident(c)) if c.name == "C"));
    }
    // desugaring again changes nothing
    let again = HIRDesugarer::desugar(out);
    let Expr::Compound(block) = &again.module.0[0] else { panic!("expected a compound") };
    assert_eq!(block.0.len(), 3);
    assert!(matches!(&block.0[0], Expr::ClassDef(cd) if cd.methods_list[0].defs.0.len() == 1));
}

#[test]
fn desugar_keeps_classes_of_methods_only() {
    let members = vec![Expr::Def(subr_def("m", Params::empty(), vec![lit("2")]))];
    let nested = Expr::Def(var_def("f", vec![Expr::ClassDef(class_with(vec![Expr::Def(var_def("y", vec![lit("0")]))]))]));
    let mut chunk = Expr::Code(Block::new(vec![Expr::ClassDef(class_with(members)), nested]));
    HIRDesugarer::desugar_class_member_expr(&mut chunk);
    let Expr::Code(b) = &chunk else { panic!() };
    assert!(matches!(&b.0[0], Expr::ClassDef(_)));
    let Expr::Def(f) = &b.0[1] else { panic!() };
    assert!(matches!(&f.body.block.0[0], Expr::Compound(c) if c.0.len() == 2));
}

#[test]
fn toplevel_side_effects_are_allowed() {
    assert!(check(vec![print_call(), lit("1")]).is_ok());
}

#[test]
fn side_effect_in_function_is_reported() {
    // f() = print! 1
    let f = subr_def("f", Params::empty(), vec![print_call()]);
    let (_, errs) = check(vec![Expr::Def(f)]).unwrap_err();
    assert_eq!(errs.len(), 1);
    assert_eq!(errs.0[0].kind, ErrorKind::HasEffect);
    assert_eq!(errs.0[0].desc, "this expression causes a side-effect");
    assert_eq!(errs.0[0].caused_by, "<module>::f");
}

#[test]
fn side_effects_in_procedures_are_allowed() {
    // p!() = print! 1
    let p = subr_def("p!", Params::empty(), vec![print_call()]);
    assert!(check(vec![Expr::Def(p)]).is_ok());
}

#[test]
fn purity_violation_in_lambda() {
    // for iter, i -> print! i
    let lam = Lambda {
        params: Params::empty(),
        op: Token::from_str(TokenKind::FuncArrow, "->"),
        return_t_spec: None,
        captured_names: vec![],
        body: Block::new(vec![print_call()]),
        id: 0,
        t: int_t(),
    };
    let for_call = call(var("for!", proc_t()), vec![var("iter", int_t()), Expr::Lambda(lam)], TypeInfo::none());
    let (_, errs) = check(vec![for_call]).unwrap_err();
    assert_eq!(errs.len(), 1);
    assert_eq!(errs.0[0].caused_by, "<module>::<lambda>");
}

#[test]
fn procedure_bound_to_plain_name() {
    // echo = print!
    let echo = var_def("echo", vec![var("print!", proc_t())]);
    let (_, errs) = check(vec![Expr::Def(echo)]).unwrap_err();
    assert_eq!(errs.len(), 1);
    assert_eq!(errs.0[0].desc, "cannot assign a procedure to a normal variable");
    assert_eq!(
        errs.0[0].hint.as_deref(),
        Some("add \x1b[1m\x1b[93m!\x1b[m\x1b[0m to the end of the variable name")
    );
    // q! = print!
    let q = var_def("q!", vec![var("print!", proc_t())]);
    assert!(check(vec![Expr::Def(q)]).is_ok());
    // f(p) = ..., where p is a procedure
    let param = NonDefaultParamSignature { name: Some("p".to_string()), binding: ParamBinding::Value, t_spec: None, vi: vi(proc_t(), "<module>::f") };
    let f = subr_def("f", Params::single(param), vec![lit("1")]);
    let (_, errs) = check(vec![Expr::Def(f)]).unwrap_err();
    assert_eq!(errs.0[0].caused_by, "<module>::f");
}

#[test]
fn errors_in_order_and_nested_paths() {
    // f() =
    //     g() = print! 1
    //     x = [print! 1]
    let g = subr_def("g", Params::empty(), vec![print_call()]);
    let list = Expr::List(List::Normal(NormalList { elems: Args::values(vec![print_call()], None), t: int_t() }));
    let x = var_def("x", vec![list]);
    let f = subr_def("f", Params::empty(), vec![Expr::Def(g), Expr::Def(x)]);
    let (_, errs) = check(vec![Expr::Def(f)]).unwrap_err();
    let causes: Vec<&str> = errs.0.iter().map(|e| e.caused_by.as_str()).collect();
    assert_eq!(causes, vec!["<module>::f::g", "<module>::f"]);
}

#[test]
fn mutable_access_in_function() {
    let mut counter = ident("counter", TypeInfo::mutable("Int!".to_string()));
    counter.vi.def_namespace = "<module>".to_string();
    let f = subr_def("f", Params::empty(), vec![Expr::Accessor(Accessor::Ident(counter))]);
    let (_, errs) = check(vec![Expr::Def(f)]).unwrap_err();
    assert_eq!(errs.0[0].desc, "cannot access a mutable object (: Int!) in a function");
    assert_eq!(errs.0[0].hint, None);
    // through a parameter that is not a reference
    let mut param = ident("p", int_t());
    param.vi.is_parameter = true;
    let acc = Accessor::attr(Expr::Accessor(Accessor::Ident(param)), ident("buf", TypeInfo::mutable("List!(Int)".to_string())));
    let g = subr_def("g", Params::empty(), vec![Expr::Accessor(acc)]);
    let (_, errs) = check(vec![Expr::Def(g)]).unwrap_err();
    assert_eq!(errs.0[0].hint.as_deref(), Some("add `ref` in the parameter definition of `::p`"));
    // through an ascribed parameter: (p: Obj!).buf
    let mut param = ident("p", int_t());
    param.vi.is_parameter = true;
    let spec = TypeSpecWithOp::new(
        AscriptionKind::TypeOf,
        "Obj!".to_string(),
        Expr::Accessor(Accessor::Ident(ident("Obj!", int_t()))),
        TypeInfo::mutable("Obj!".to_string()),
    );
    let ascribed = Expr::Accessor(Accessor::Ident(param)).type_asc_expr(spec);
    let acc = Accessor::attr(ascribed, ident("buf", TypeInfo::mutable("List!(Int)".to_string())));
    let g = subr_def("g", Params::empty(), vec![Expr::Accessor(acc)]);
    let (_, errs) = check(vec![Expr::Def(g)]).unwrap_err();
    assert_eq!(errs.0[0].hint.as_deref(), Some("add `ref` in the parameter definition of `::p: Obj!`"));
    assert_eq!(errs.0[0].loc, Location::Unknown);
}

#[test]
fn record_and_default_params() {
    // {x = print! 1} at the top level is allowed (an instant block in a module)
    let rec = Expr::Record(Record { attrs: RecordAttrs(vec![var_def("x", vec![print_call()])]), t: int_t() });
    assert!(check(vec![rec]).is_ok());
    // f(x := print! 1) = 1
    let d = DefaultParamSignature {
        sig: NonDefaultParamSignature { name: Some("x".to_string()), binding: ParamBinding::Value, t_spec: None, vi: vi(int_t(), "<module>::f") },
        default_val: print_call(),
    };
    let mut params = Params::empty();
    params.push_default(d);
    let f = subr_def("f", params, vec![lit("1")]);
    assert!(check(vec![Expr::Def(f)]).is_err());
}

#[test]
fn is_operator_has_side_effect() {
    let is_op = Expr::BinOp(BinOp {
        op: Token::from_str(TokenKind::IsOp, "is!"),
        lhs: Box::new(lit("1")),
        rhs: Box::new(lit("2")),
        t: TypeInfo::plain("Bool".to_string()),
    });
    let f = subr_def("f", Params::empty(), vec![is_op]);
    assert!(check(vec![Expr::Def(f)]).is_err());
}

#[test]
fn purity() {
    assert!(SideEffectChecker::is_pure(&lit("1")));
    // a call's type is the type of what it returns: `print!(1)` returns `NoneType`
    assert!(SideEffectChecker::is_pure(&print_call()));
    let proc_returning = call(var("mk!", proc_t()), vec![], proc_t());
    assert!(SideEffectChecker::is_impure(&proc_returning));
    let pure_call = call(var("f", int_t()), vec![lit("1")], int_t());
    assert!(SideEffectChecker::is_pure(&pure_call));
    let nested = call(var("f", int_t()), vec![proc_returning], int_t());
    assert!(SideEffectChecker::is_impure(&nested));
    let p = Expr::Def(subr_def("p!", Params::empty(), vec![lit("1")]));
    assert!(SideEffectChecker::is_impure(&p));
    let code = Expr::Code(Block::new(vec![lit("1"), call(var("mk!", proc_t()), vec![], proc_t())]));
    assert!(SideEffectChecker::is_impure(&code));
    let lam = Lambda {
        params: Params::empty(),
        op: Token::from_str(TokenKind::ProcArrow, "=>"),
        return_t_spec: None,
        captured_names: vec![],
        body: Block::new(vec![lit("1")]),
        id: 0,
        t: proc_t(),
    };
    // the arrow of a lambda is not a procedural name
    assert!(SideEffectChecker::is_pure(&Expr::Lambda(lam)));
}
