use erg_compiler::hir::{
    Accessor, Args, Block, Call, ClassDef, Def, DefBody, DefKind, DefaultParamSignature, Expr,
    Identifier, KwArg, Lambda, List, ListWithLength, Literal, Methods, Module, NonDefaultParamSignature,
    GlobSignature, NormalDict, NormalList, NormalSet, NormalTuple, KeyValue, OperationKind, Params, PosArg, Record, RecordAttrs, Signature,
    SubrSignature, Tuple, TypeSpecWithOp, AscriptionKind, VarInfo, VarSignature,
    VisModifierSpec,
};
use erg_compiler::token::{Token, TokenKind};
use erg_compiler::ty::TypeInfo;

fn int_t() -> TypeInfo {
    TypeInfo::plain("Int".to_string())
}

fn vi(t: TypeInfo) -> VarInfo {
    VarInfo { t, is_public: false, def_namespace: "<module>".to_string(), is_parameter: false, py_name: None }
}

fn ident(name: &str, t: TypeInfo) -> Identifier {
    Identifier::new(VisModifierSpec::Private, name.to_string(), None, vi(t))
}

fn var(name: &str, t: TypeInfo) -> Expr {
    Expr::Accessor(Accessor::Ident(ident(name, t)))
}

fn lit(n: &str) -> Expr {
    Expr::Literal(Literal::new(Token::from_str(TokenKind::NatLit, n), int_t()))
}

fn var_def(name: &str, body: Vec<Expr>) -> Def {
    Def::new(Signature::Var(VarSignature::new(ident(name, int_t()), None)), DefBody::new(Block::new(body)))
}

fn call_of(callee: Expr, args: Vec<Expr>) -> Expr {
    callee.call_expr(Args::values(args, None), TypeInfo::none())
}

fn nd(name: &str, t_spec: Option<&str>) -> NonDefaultParamSignature {
    NonDefaultParamSignature::new(Some(name.to_string()), t_spec.map(|s| s.to_string()), vi(int_t()))
}

#[test]
fn literal_and_list_predicates() {
    let doc = Literal::new(Token::from_str(TokenKind::DocComment, "doc"), TypeInfo::plain("Str".to_string()));
    assert!(doc.is_doc_comment());
    assert!(doc.is(TokenKind::DocComment));
    assert!(Expr::Literal(doc).is_doc_comment());
    assert!(!lit("1").is_doc_comment());
    let unsized_list = ListWithLength::new(int_t(), lit("0"), None);
    assert!(unsized_list.is_unsized());
    assert!(List::WithLength(unsized_list).is_unsized());
    assert!(!List::WithLength(ListWithLength::new(int_t(), lit("0"), Some(lit("3")))).is_unsized());
    let mut l = NormalList::new(int_t(), Args::empty());
    l.push(lit("1"));
    assert_eq!(l.elems.len(), 1);
    assert!(!List::Normal(l).is_unsized());
}

#[test]
fn accessor_queries() {
    let x = var("x", int_t());
    assert!(x.is_acc());
    assert!(x.should_wrap());
    assert!(!x.need_to_be_closed());
    assert_eq!(x.var_info().unwrap().t.name, "Int");
    assert_eq!(x.last_name().unwrap(), "x");
    assert!(!x.is_py_api());
    assert!(x.receiver_t().is_none());
    let spec = TypeSpecWithOp::new(AscriptionKind::TypeOf, "Int".to_string(), var("Int", int_t()), int_t());
    let asc = var("y", int_t()).type_asc_expr(spec);
    assert!(asc.is_acc());
    assert!(asc.need_to_be_closed());
    assert_eq!(asc.last_name().unwrap(), "y");
    assert!(!lit("1").is_acc());
    assert!(lit("1").should_wrap());
    let attr = var("obj", TypeInfo::plain("C".to_string())).attr_expr(ident("f", int_t()));
    assert_eq!(attr.receiver_t().unwrap().name, "C");
    assert_eq!(attr.last_name().unwrap(), "f");
    let tup = Expr::Tuple(Tuple::Normal(NormalTuple { elems: Args::values(vec![lit("1")], None), t: int_t() }));
    assert!(tup.need_to_be_closed());
    let paren = Some((Token::from_str(TokenKind::LParen, "("), Token::from_str(TokenKind::RParen, ")")));
    let tup = Expr::Tuple(Tuple::Normal(NormalTuple { elems: Args::values(vec![lit("1")], paren), t: int_t() }));
    assert!(!tup.need_to_be_closed());
}

#[test]
fn showing_accessors() {
    let add = Accessor::Ident(ident("__add__", int_t()));
    assert_eq!(add.show(), "`+`");
    let a_b = var("a", int_t()).attr_expr(ident("b", int_t()));
    assert_eq!(a_b.show_acc().unwrap(), "a.b");
    let lit_attr = lit("1").attr(ident("__sub__", int_t()));
    // a receiver that is not an accessor is shown by its type
    assert_eq!(lit_attr.show(), "Int.`-`");
    assert!(lit("1").show_acc().is_none());
}

#[test]
fn qualified_names() {
    let mut m = ident("m", int_t());
    m.qual_name = Some("pkg.m".to_string());
    let mut c = ident("C", int_t());
    c.qual_name = Some("pkg.m.C".to_string());
    let m_c = Expr::Accessor(Accessor::Ident(m)).attr_expr(c);
    assert_eq!(m_c.qual_name().unwrap(), "pkg.m.pkg.m.C");
    let mut m2 = ident("m", int_t());
    m2.qual_name = Some("pkg.m".to_string());
    let m_f = Expr::Accessor(Accessor::Ident(m2)).attr_expr(ident("f", int_t()));
    assert_eq!(m_f.qual_name().unwrap(), "pkg.m.f");
    assert!(var("x", int_t()).qual_name().is_none());
}

#[test]
fn module_attributes_and_methods() {
    let module = Module(vec![lit("1"), Expr::Def(var_def("x", vec![lit("1")])), Expr::Def(var_def("x", vec![lit("2")]))]);
    let d = module.get_attr("x").unwrap();
    assert!(matches!(&d.body.block.0[0], Expr::Literal(l) if l.token.content == "1"));
    assert!(module.get_attr("y").is_none());
    let ms = vec![
        Methods::new(int_t(), None, Block::new(vec![lit("1"), lit("2")])),
        Methods::new(int_t(), Some(TypeInfo::plain("Eq".to_string())), Block::new(vec![lit("3")])),
    ];
    let all = ClassDef::get_all_methods(&ms);
    assert_eq!(all.len(), 3);
    assert!(matches!(all[2], Expr::Literal(l) if l.token.content == "3"));
    let cd = ClassDef::new(Signature::Var(VarSignature::new(ident("C", int_t()), None)), None, ms);
    assert_eq!(cd.all_methods().len(), 3);
    let joined = ClassDef::take_all_methods(cd.methods_list);
    assert_eq!(joined.len(), 3);
    assert!(matches!(&joined.0[0], Expr::Literal(l) if l.token.content == "1"));
}

#[test]
fn parameters_and_signatures() {
    let params = Params::new(
        vec![nd("a", Some("Int")), nd("b", None)],
        Some(Box::new(nd("rest", None))),
        vec![DefaultParamSignature::new(nd("c", None), lit("0"))],
        Some(Box::new(nd("kw", None))),
        vec![],
        None,
    );
    let names: Vec<String> = params.sigs().iter().map(|s| s.name().unwrap().clone()).collect();
    assert_eq!(names, vec!["a", "b", "rest", "c"]);
    assert_eq!(params.defaults[0].name().unwrap(), "c");
    let (nds, var, defaults, kw_var, parens) = params.ref_deconstruct();
    assert_eq!(nds.len(), 2);
    assert!(var.is_some() && kw_var.is_some() && parens.is_none());
    assert_eq!(defaults.len(), 1);
    let sig = Signature::Subr(SubrSignature::new(ident("f", int_t()), params, None, vec![ident("g", int_t())]));
    assert_eq!(sig.default_params().unwrap().len(), 1);
    assert_eq!(sig.captured_names().len(), 1);
    assert_eq!(sig.name(), "f");
    let var_sig = Signature::Var(VarSignature::global(ident("x", int_t()), None));
    assert!(var_sig.default_params().is_none());
    assert!(var_sig.captured_names().is_empty());
    let (nds, var, defaults, kw_var, _) = Params::single(nd("p", None)).deconstruct();
    assert_eq!(nds.len(), 1);
    assert!(var.is_none() && kw_var.is_none() && defaults.is_empty());
}

#[test]
fn definition_kinds() {
    let class = var_def("C", vec![call_of(var("Class", int_t()), vec![])]);
    assert_eq!(class.def_kind(), DefKind::Class);
    let inherit = var_def("D", vec![call_of(var("Inherit", int_t()), vec![var("C", int_t())])]);
    assert_eq!(inherit.def_kind(), DefKind::Inherit);
    let inheritable = var_def("E", vec![call_of(var("Inheritable", int_t()), vec![call_of(var("Class", int_t()), vec![])])]);
    assert_eq!(inheritable.def_kind(), DefKind::Class);
    let mut kw_args = Args::empty();
    kw_args.push_kw(KwArg::new(Token::from_str(TokenKind::Symbol, "Class"), call_of(var("Inherit", int_t()), vec![])));
    let by_key = var_def("F", vec![var("Inheritable", int_t()).call_expr(kw_args, TypeInfo::none())]);
    assert_eq!(by_key.def_kind(), DefKind::Inherit);
    assert_eq!(var_def("m", vec![call_of(var("import", int_t()), vec![])]).def_kind(), DefKind::ErgImport);
    assert_eq!(var_def("m", vec![call_of(var("pyimport", int_t()), vec![])]).def_kind(), DefKind::PyImport);
    assert_eq!(var_def("m", vec![call_of(var("py", int_t()), vec![])]).def_kind(), DefKind::Other);
    assert_eq!(var_def("P", vec![call_of(var("Patch", int_t()), vec![])]).def_kind(), DefKind::Patch);
    assert_eq!(var_def("x", vec![lit("1")]).def_kind(), DefKind::Other);
    let base = Expr::Record(Record { attrs: RecordAttrs(vec![var_def("a", vec![lit("1")])]), t: int_t() });
    let with_base = var_def("C", vec![call_of(var("Class", int_t()), vec![base])]);
    assert_eq!(with_base.get_base().unwrap().attrs.len(), 1);
    assert!(class.get_base().is_none());
}

#[test]
fn special_operations() {
    let op = |callee: Expr| match callee.call_expr(Args::empty(), TypeInfo::none()) {
        Expr::Call(c) => c.additional_operation(),
        _ => unreachable!(),
    };
    assert_eq!(op(var("import", int_t())), Some(OperationKind::Import));
    assert_eq!(op(var("__import__", int_t())), Some(OperationKind::PyImport));
    assert_eq!(op(var("rsimport", int_t())), Some(OperationKind::RsImport));
    assert_eq!(op(var("Del", int_t())), Some(OperationKind::Del));
    assert_eq!(op(var("assert", int_t())), Some(OperationKind::Assert));
    assert_eq!(op(lit("1")), None);
    let mut typing = ident("typing", int_t());
    typing.qual_name = Some("typing".to_string());
    let cast = Expr::Accessor(Accessor::Ident(typing)).attr_expr(ident("cast", int_t()));
    assert_eq!(op(cast), Some(OperationKind::Cast));
    let f = TypeInfo::function("(Int) -> Int".to_string());
    let ret = var("f", f).attr_expr(ident("return", int_t()));
    assert_eq!(op(ret), Some(OperationKind::Return));
    let not_callable = var("x", int_t()).attr_expr(ident("yield", int_t()));
    assert_eq!(op(not_callable), None);
}

#[test]
fn building_calls() {
    let c: Call = var("f", int_t()).call(Args::empty(), int_t());
    assert!(c.attr_name.is_none());
    let m = var("o", int_t()).attr_expr(ident("m", int_t())).call(Args::empty(), int_t());
    assert_eq!(m.attr_name.unwrap().name, "m");
    assert!(matches!(*m.obj, Expr::Accessor(Accessor::Ident(ref i)) if i.name == "o"));
    let one = var("f", int_t()).call1(lit("1"), int_t());
    assert!(matches!(one, Expr::Call(ref c) if c.args.len() == 1 && c.t.name == "Int"));
    let two = var("f", int_t()).call2(lit("1"), lit("2"), int_t());
    assert!(matches!(two, Expr::Call(ref c) if c.args.len() == 2));
    let by_name = Identifier::public("print").call(Args::single(PosArg::new(lit("1"))), TypeInfo::none());
    assert_eq!(by_name.args.len(), 1);
    assert!(!by_name.constructs_effectful_instance);
    let acc = Accessor::public(Token::from_str(TokenKind::Symbol, "x"), vi(int_t()));
    assert!(matches!(acc, Accessor::Ident(ref i) if i.vis == VisModifierSpec::Public && i.name == "x"));
    let sp = Identifier::static_public("y");
    assert!(sp.vi.is_public);
    assert_eq!(sp.vi.def_namespace, "<dummy>");
}

#[test]
fn complexities() {
    assert_eq!(lit("1").complexity(), 0);
    assert_eq!(var("x", int_t()).complexity(), 1);
    assert_eq!(var("a", int_t()).attr_expr(ident("b", int_t())).complexity(), 2);
    // f(x, 1): 1 for the call, 1 for `f`, 1 for `x`
    assert_eq!(call_of(var("f", int_t()), vec![var("x", int_t()), lit("1")]).complexity(), 3);
    let rec = Expr::Record(Record { attrs: RecordAttrs(vec![var_def("a", vec![var("x", int_t())])]), t: int_t() });
    assert_eq!(rec.complexity(), 1);
    // x -> x: 1, plus 1 for no return type, plus 1 for the untyped parameter, plus 1 for the body
    let lam = Lambda::new(
        0,
        Params::single(nd("x", None)),
        Token::from_str(TokenKind::FuncArrow, "->"),
        None,
        vec![],
        Block::new(vec![var("x", int_t())]),
        int_t(),
    );
    assert_eq!(Expr::Lambda(lam).complexity(), 4);
    let typed = Lambda::new(
        0,
        Params::single(nd("x", Some("Int"))),
        Token::from_str(TokenKind::FuncArrow, "->"),
        Some("Int".to_string()),
        vec![],
        Block::empty(),
        int_t(),
    );
    assert_eq!(Expr::Lambda(typed).complexity(), 1);
    assert_eq!(Expr::Code(Block::empty()).complexity(), 5);
}

#[test]
fn argument_iteration_and_mutation() {
    let mut args = Args::values(vec![lit("1")], None);
    args.var_args = Some(Box::new(PosArg::new(lit("2"))));
    args.push_kw(KwArg::new(Token::from_str(TokenKind::Symbol, "k"), lit("3")));
    let contents: Vec<String> = args
        .iter()
        .iter()
        .map(|e| match e {
            Expr::Literal(l) => l.token.content.clone(),
            _ => String::new(),
        })
        .collect();
    assert_eq!(contents, vec!["1", "2", "3"]);
    if let Some(e) = args.get_mut_left_or_key("k") {
        *e = lit("9");
    }
    assert!(matches!(&args.pos_args[0].expr, Expr::Literal(l) if l.token.content == "9"));
    let mut kw_only = Args::empty();
    kw_only.push_kw(KwArg::new(Token::from_str(TokenKind::Symbol, "k"), lit("3")));
    *kw_only.get_mut_left_or_key("k").unwrap() = lit("4");
    assert!(matches!(&kw_only.kw_args[0].expr, Expr::Literal(l) if l.token.content == "4"));
    assert!(kw_only.get_mut_left_or_key("z").is_none());
}

#[test]
fn mutating_signatures() {
    let mut sig = Signature::Subr(SubrSignature::new(ident("f", int_t()), Params::empty(), None, vec![]));
    sig.ident_mut().name = "g".to_string();
    assert_eq!(sig.name(), "g");
    sig.params_mut().unwrap().non_defaults.push(nd("x", None));
    assert_eq!(sig.params().unwrap().len(), 1);
    let mut var = Signature::Var(VarSignature::new(ident("x", int_t()), None));
    assert!(var.params_mut().is_none());
    var.ident_mut().vi.is_public = true;
    assert!(var.is_public());
}

#[test]
fn type_ascriptions() {
    let spec = TypeSpecWithOp::new(AscriptionKind::AsCast, "Nat".to_string(), var("Nat", int_t()), TypeInfo::plain("Nat".to_string()));
    assert!(spec.kind().is_force_cast());
    let cast = var("x", int_t()).type_asc_expr(spec);
    // a cast has the type it casts to
    assert_eq!(cast.t().name, "Nat");
    let spec = TypeSpecWithOp::new(AscriptionKind::SubtypeOf, "Nat".to_string(), var("Nat", int_t()), TypeInfo::plain("Nat".to_string()));
    let asc = var("x", int_t()).type_asc_expr(spec);
    // other ascriptions keep the type of the expression
    assert_eq!(asc.t().name, "Int");
    let ret = TypeSpecWithOp::new(AscriptionKind::TypeOf, "Int".to_string(), var("Int", int_t()), int_t());
    let sig = Signature::Subr(SubrSignature::new(ident("f", int_t()), Params::empty(), Some(ret), vec![]));
    assert_eq!(sig.t_spec().unwrap(), "Int");
    assert_eq!(sig.t_spec_with_op().unwrap().kind(), AscriptionKind::TypeOf);
    assert!(Signature::Var(VarSignature::new(ident("y", int_t()), None)).t_spec().is_none());
}

#[test]
fn growing_parameter_lists() {
    let mut p = Params::non_default_only(vec![nd("a", None)]);
    p.push_non_default(nd("b", None));
    p.push_var(nd("rest", None));
    p.push_default(DefaultParamSignature::new(nd("c", None), lit("1")));
    p.push_kw_var(nd("kw", None));
    assert_eq!(p.len(), 3);
    assert_eq!(p.sigs().len(), 4);
    assert!(p.kw_var_params.is_some());
    let sig = Signature::Subr(SubrSignature::new(ident("f", int_t()), p, None, vec![]));
    assert!(sig.is_subr() && !sig.is_glob());
    assert!(var("x", int_t()).type_asc_expr(TypeSpecWithOp::new(
        AscriptionKind::TypeOf,
        "Int".to_string(),
        var("Int", int_t()),
        int_t()
    ))
    .is_type_asc());
}

#[test]
fn collection_and_record_constructors() {
    let tuple_t = TypeInfo::plain("Tuple([Int, Int])".to_string());
    let t = NormalTuple::new(Args::values(vec![lit("1"), lit("2")], None), tuple_t);
    assert_eq!(t.elems.pos_args.len(), 2);
    assert_eq!(t.t.name, "Tuple([Int, Int])");
    let s = NormalSet::new(Args::values(vec![lit("1")], None), TypeInfo::plain("Set(Int, 1)".to_string()));
    assert_eq!(s.elems.pos_args.len(), 1);
    assert_eq!(s.t.name, "Set(Int, 1)");
    let d = NormalDict::new(vec![KeyValue::new(lit("1"), lit("2"))], TypeInfo::plain("Dict({Int: Int})".to_string()));
    assert_eq!(d.kvs.len(), 1);
    let mut r = Record::new(RecordAttrs(vec![var_def("a", vec![lit("1")])]), TypeInfo::plain("{a = Int}".to_string()));
    assert_eq!(r.attrs.0.len(), 1);
    r.push(var_def("b", vec![lit("2")]), TypeInfo::plain("{a = Int; b = Int}".to_string()));
    assert_eq!(r.attrs.0.len(), 2);
    assert!(r.get("b").is_some());
    assert_eq!(r.t.name, "{a = Int; b = Int}");
}

#[test]
fn glob_signature_names_a_dummy_identifier() {
    let g = GlobSignature::new(
        Token::from_str(TokenKind::Star, "*"),
        true,
        vec!["sin".to_string(), "cos".to_string()],
        TypeInfo::plain("GenericModule".to_string()),
    );
    assert_eq!(g.dummy_ident.name, "*");
    assert_eq!(g.dummy_ident.vi.t.name, "GenericModule");
    assert!(g.dummy_ident.qual_name.is_none());
    assert!(!g.dummy_ident.vi.is_public);
    assert!(g.is_public);
    assert_eq!(g.names, vec!["sin".to_string(), "cos".to_string()]);
}
