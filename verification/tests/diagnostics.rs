use erg_common::style::{Attribute, StyledStr, StyledString, THEME};
use erg_compiler::error::{CompileError, Location, ErrorKind};
use erg_compiler::hir::{Expr, Identifier, Literal, VisModifierSpec};
use erg_compiler::token::{Token, TokenKind};
use erg_compiler::ty::TypeInfo;

const RED: &str = "\x1b[91m";
const YELLOW: &str = "\x1b[93m";
const GREEN: &str = "\x1b[92m";
const WHITE: &str = "\x1b[97m";
const BOLD: &str = "\x1b[1m";
const UNDERLINE: &str = "\x1b[4m";
const RESET: &str = "\x1b[m";
const ATTR_RESET: &str = "\x1b[0m";

/// A borrowed text in bold: colour first.
fn bold_str(color: &str, text: &str) -> String {
    format!("{color}{BOLD}{text}{RESET}{ATTR_RESET}")
}

/// An owned text in bold: attribute first.
fn bold_string(color: &str, text: &str) -> String {
    format!("{BOLD}{color}{text}{RESET}{ATTR_RESET}")
}

fn int_t() -> TypeInfo {
    TypeInfo::plain("Int".to_string())
}

fn caused() -> String {
    "<module>".to_string()
}

#[test]
fn highlighting_matches_erg_common() {
    let err = THEME.colors.error;
    let warn = THEME.colors.warning;
    let hint = THEME.colors.hint;
    let accent = THEME.colors.accent;
    assert_eq!(StyledStr::new("x", Some(err), Some(Attribute::Bold)).to_string(), bold_str(RED, "x"));
    assert_eq!(StyledString::new("x", Some(warn), Some(Attribute::Bold)).to_string(), bold_string(YELLOW, "x"));
    assert_eq!(StyledStr::new("x", Some(hint), None).to_string(), format!("{GREEN}x{RESET}"));
    assert_eq!(
        StyledStr::new("u", Some(accent), Some(Attribute::Underline)).to_string(),
        format!("{WHITE}{UNDERLINE}u{RESET}{ATTR_RESET}")
    );
}

#[test]
fn name_errors() {
    let e = CompileError::duplicate_decl_error(1, here(), caused(), "__add__");
    assert_eq!(e.kind, ErrorKind::NameError);
    assert_eq!(e.desc, "`+` is already declared");
    assert!(e.hint.is_none());
    assert_eq!(e.caused_by, "<module>");
    let e = CompileError::duplicate_definition_error(1, here(), caused(), "x");
    assert_eq!(e.desc, "x is already defined");
    let e = CompileError::no_var_error(1, here(), caused(), "foo", Some("fob"));
    assert_eq!(e.desc, format!("{} is not defined", bold_str(RED, "foo")));
    assert_eq!(e.hint.unwrap(), format!("exists a similar name variable: {}", bold_str(GREEN, "fob")));
    assert!(CompileError::no_var_error(1, here(), caused(), "foo", None).hint.is_none());
    let e = CompileError::not_comptime_fn_error(1, here(), caused(), "f", Some("g"));
    assert_eq!(e.desc, format!("{} is not a compile-time function", bold_str(RED, "f")));
    assert_eq!(e.hint.unwrap(), format!("exists a similar name function: {}", bold_str(GREEN, "g")));
    let e = CompileError::detailed_no_var_error(1, here(), caused(), "x", Some("y"), Some("public"));
    assert_eq!(e.hint.unwrap(), format!("exists a similar name public variable: {}", bold_str(GREEN, "y")));
    let e = CompileError::detailed_no_var_error(1, here(), caused(), "x", Some("y"), None);
    assert_eq!(e.hint.unwrap(), format!("exists a similar name  variable: {}", bold_str(GREEN, "y")));
    let e = CompileError::access_before_def_error(1, here(), caused(), "x", 12, None);
    assert_eq!(e.desc, format!("cannot access {} before its definition (line 12)", bold_str(RED, "x")));
    let e = CompileError::access_deleted_var_error(1, here(), caused(), "x", 3, Some("xs"));
    assert_eq!(e.desc, format!("cannot access deleted variable {} (deleted at line 3)", bold_str(RED, "x")));
    assert_eq!(e.kind, ErrorKind::NameError);
}

#[test]
fn type_errors() {
    let e = CompileError::violate_decl_error(1, here(), caused(), "x", &int_t(), &TypeInfo::plain("Str".to_string()));
    assert_eq!(e.kind, ErrorKind::TypeError);
    assert_eq!(
        e.desc,
        format!(
            "{YELLOW}x{RESET} was declared as {}, but an {} object is assigned",
            bold_string(GREEN, "Int"),
            bold_string(RED, "Str")
        )
    );
    let e = CompileError::no_type_error(1, here(), caused(), "Itn", Some("Int"));
    assert_eq!(e.desc, format!("Type {} is not defined", bold_string(RED, "Itn")));
    assert_eq!(e.hint.unwrap(), format!("exists a similar name type: {}", bold_str(GREEN, "Int")));
    let e = CompileError::not_a_type_error(1, here(), caused(), "one");
    assert_eq!(e.desc, format!("{} is not a type", bold_string(RED, "one")));
    let n = bold_str(GREEN, "one");
    assert_eq!(e.hint.unwrap(), format!("Do you mean {{{n}}}, a type that has only {n}?"));
    let e = CompileError::type_not_found(1, here(), caused(), &int_t());
    assert_eq!(e.desc, format!("Type {} is not found", bold_string(RED, "Int")));
    let url = format!("{WHITE}{UNDERLINE}https://github.com/erg-lang/erg{RESET}{ATTR_RESET}");
    assert_eq!(e.hint.unwrap(), format!("This may be a bug of Erg compiler, please report to {url}"));
    let e = CompileError::invalid_type_cast_error(1, here(), caused(), "x", &int_t(), &TypeInfo::plain("Str".to_string()), None);
    assert_eq!(
        e.desc,
        format!("{}: {} cannot be cast to {}", bold_string(YELLOW, "x"), bold_string(YELLOW, "Int"), bold_string(RED, "Str"))
    );
    assert_eq!(CompileError::inner_typedef_error(1, here(), caused()).desc, "types must be defined at the top level");
    assert_eq!(CompileError::inner_typedef_error(1, here(), caused()).kind, ErrorKind::TypeError);
}

#[test]
fn attribute_errors() {
    let e = CompileError::no_attr_error(1, here(), caused(), &int_t(), "foo", Some("fo"));
    assert_eq!(e.kind, ErrorKind::AttributeError);
    assert_eq!(e.desc, format!("Int object has no attribute {}", bold_string(RED, "foo")));
    assert_eq!(e.hint.unwrap(), "has a similar name attribute: fo");
    let e = CompileError::detailed_no_attr_error(1, here(), caused(), &int_t(), "foo", Some("fo"), Some(("public", "method")));
    assert_eq!(e.hint.unwrap(), "has a similar name public method attribute: fo");
    let e = CompileError::singular_no_attr_error(1, here(), caused(), "x", &int_t(), "foo", Some("fo"));
    assert_eq!(e.desc, format!("x(: Int) has no attribute {}", bold_string(RED, "foo")));
    assert_eq!(e.hint.unwrap(), format!("has a similar name attribute: {}", bold_str(GREEN, "fo")));
}

#[test]
fn assignment_and_deletion_errors() {
    let e = CompileError::reassign_error(1, here(), caused(), "x");
    assert_eq!(e.kind, ErrorKind::AssignError);
    assert_eq!(e.desc, format!("variable {} cannot be assigned more than once", bold_str(YELLOW, "x")));
    let e = CompileError::shadow_special_namespace_error(1, here(), caused(), "module");
    assert_eq!(
        e.desc,
        format!("cannot define variable with the same name as special namespace {}", bold_str(YELLOW, "module"))
    );
    let ident = Identifier::public("PI");
    let e = CompileError::del_error(1, here(), &ident, true, caused());
    assert_eq!(e.desc, format!("constant {} cannot be deleted", bold_string(YELLOW, "PI")));
    let e = CompileError::del_error(1, here(), &ident, false, caused());
    assert_eq!(e.desc, format!("built-in variable {} cannot be deleted", bold_string(YELLOW, "PI")));
    let e = CompileError::visibility_error(1, here(), caused(), "x", "private");
    assert_eq!(e.kind, ErrorKind::VisibilityError);
    assert_eq!(e.desc, format!("{} is private variable", bold_string(RED, "x")));
    let e = CompileError::override_error(1, here(), "f", &TypeInfo::plain("Base".to_string()), caused());
    assert_eq!(e.desc, format!("{} is already defined in {}", bold_string(RED, "f"), bold_string(YELLOW, "Base")));
    assert_eq!(e.notes, vec!["cannot override by default".to_string()]);
    assert_eq!(e.hint.unwrap(), format!("use {} decorator", bold_string(GREEN, "@Override")));
    let e = CompileError::inheritance_error(1, here(), "Int".to_string(), caused());
    assert_eq!(e.desc, "Int is not inheritable");
    assert_eq!(e.kind, ErrorKind::InheritanceError);
}

#[test]
fn import_errors() {
    let e = CompileError::import_error(1, here(), "no module".to_string(), caused(), Some("foo".into()), Some("fob".into()));
    assert_eq!(e.kind, ErrorKind::ImportError);
    assert_eq!(e.errno, 1);
    assert_eq!(e.loc, here());
    assert_eq!(e.desc, "no module");
    assert_eq!(e.caused_by, caused());
    assert_eq!(
        e.notes,
        vec![
            format!("similar name erg module exists: {}", bold_string(GREEN, "foo")),
            format!("similar name python module exists: {}", bold_string(GREEN, "fob")),
        ]
    );
    assert_eq!(e.hint.unwrap(), format!("to import python modules, use {}", bold_string(WHITE, "pyimport")));
    let e = CompileError::import_error(1, here(), "no module".to_string(), caused(), Some("foo".into()), None);
    assert_eq!(e.hint.unwrap(), format!("to import erg modules, use {} (not pyimport)", bold_string(WHITE, "import")));
    let e = CompileError::import_error(1, here(), "no module".to_string(), caused(), None, Some("fob".into()));
    assert_eq!(e.notes.len(), 1);
    assert_eq!(e.hint.unwrap(), format!("to import python modules, use {} (not import)", bold_string(WHITE, "pyimport")));
    let e = CompileError::import_error(1, here(), "no module".to_string(), caused(), None, None);
    assert!(e.notes.is_empty());
    assert!(e.hint.is_none());
    let e = CompileError::module_env_error(1, here(), "tkinter", caused());
    assert_eq!(e.kind, ErrorKind::IoError);
    assert_eq!(e.desc, "module tkinter is not supported in your environment");
    let e = CompileError::file_error(1, here(), "cannot read".to_string(), caused(), Some("check".to_string()));
    assert_eq!(e.hint.as_deref(), Some("check"));
}

#[test]
fn warnings() {
    let lit = Expr::Literal(Literal::new(Token::from_str(TokenKind::NatLit, "1"), TypeInfo::plain("Nat".to_string())));
    let e = CompileError::unused_expr_warning(1, here(), &lit, caused());
    assert_eq!(e.kind, ErrorKind::UnusedWarning);
    assert_eq!(e.desc, "the evaluation result of the expression (: Nat) is not used");
    assert_eq!(e.hint.unwrap(), format!("if you don't use the value, use {} function", bold_string(GREEN, "discard")));
    let e = CompileError::unused_subroutine_warning(1, here(), &lit, caused());
    assert_eq!(e.hint.as_deref(), Some("perhaps you forgot the () in the call?"));
    let e = CompileError::unused_warning(1, here(), "x", caused());
    assert_eq!(e.desc, format!("{} is not used", bold_string(YELLOW, "x")));
    let e = CompileError::union_return_type_warning(1, here(), caused(), "f", &TypeInfo::plain("Int or Str".to_string()));
    let f = format!("{YELLOW}f{RESET}");
    assert_eq!(e.desc, format!("the return type of function {f} is not single"));
    assert_eq!(
        e.hint.unwrap(),
        format!("please explicitly specify the return type of function {f}, for example `{f}(...): Int or Str = ...`")
    );
    let e = CompileError::builtin_exists_warning(1, here(), caused(), "print");
    assert_eq!(e.kind, ErrorKind::NameWarning);
    assert_eq!(e.desc, format!("a built-in function named {} already exists", bold_str(YELLOW, "print")));
    let e = CompileError::same_name_instance_attr_warning(1, here(), caused(), "x");
    assert_eq!(e.desc, format!("an instance attribute named {} already exists", bold_str(YELLOW, "x")));
    let e = CompileError::use_cast_warning(1, here(), caused());
    assert_eq!(e.kind, ErrorKind::TypeWarning);
}

#[test]
fn system_errors() {
    let url = format!("{WHITE}{UNDERLINE}https://github.com/erg-lang/erg{RESET}{ATTR_RESET}");
    let e = CompileError::compiler_bug(1, here(), "lower", 120);
    assert_eq!(e.kind, ErrorKind::CompilerSystemError);
    assert_eq!(e.desc, format!("this is a bug of the Erg compiler, please report it to {url}\n\ncaused from: lower:120"));
    assert_eq!(e.caused_by, "");
    let e = CompileError::stack_bug(here(), 3, 7, "codegen");
    assert_eq!((e.errno, e.loc), (0, here()));
    assert_eq!(
        e.desc,
        format!(
            "the number of elements in the stack is invalid (num of elems: 3, block id: 7)\n\nthis is a bug of the Erg compiler, please report it to {url}\ncaused from: codegen"
        )
    );
    let e = CompileError::move_error(1, "x", here(), Location::LineRange(4, 6), caused());
    assert_eq!(e.kind, ErrorKind::MoveError);
    assert_eq!(e.loc, here());
    assert_eq!(e.desc, format!("{} was moved in line 4", bold_string(RED, "x")));
    assert_eq!(CompileError::move_error(1, "x", here(), Location::Unknown, caused()).desc, format!("{} was moved in line 0", bold_string(RED, "x")));
    assert_eq!(CompileError::not_const_expr(1, here(), caused()).desc, "not a constant expression");
    assert_eq!(CompileError::invalid_literal(1, here(), caused()).kind, ErrorKind::SyntaxError);
    assert_eq!(CompileError::declare_error(1, here(), caused()).kind, ErrorKind::SyntaxError);
    let e = CompileError::syntax_error(1, here(), caused(), "bad".to_string(), None);
    assert_eq!(e.desc, "bad");
}

#[test]
fn private_identifier_is_not_public() {
    let i = Identifier::private("x");
    assert_eq!(i.vis, VisModifierSpec::Private);
    assert!(!i.vi.is_public);
    assert_eq!(i.vi.t.name, "Failure");
}

/// A location of one character on the second line.
fn here() -> Location {
    Location::Range { ln_begin: 2, col_begin: 0, ln_end: 2, col_end: 1 }
}

#[test]
fn default_error_format_confirmation() {
    let mut errors = Vec::new();
    let errno = 0;
    let caused_by = "<caused_by>";
    let name = "name";

    let err = CompileError::stack_bug(Location::Line(1), 0, 0, "FileName");
    errors.push(err);

    let loc = Location::Range { ln_begin: 1, col_begin: 0, ln_end: 1, col_end: 8 };
    let obj_name = "ojb name";
    let obj_t = TypeInfo::plain("Bool".to_string());
    let similar_name = Some("similar name");
    let err = CompileError::singular_no_attr_error(errno, loc, caused_by.to_string(), obj_name, &obj_t, name, similar_name);
    errors.push(err);

    let loc = Location::Range { ln_begin: 1, col_begin: 8, ln_end: 1, col_end: 17 };
    let cast_to = TypeInfo::plain("Error".to_string());
    let hint = Some("hint message here".to_string());
    let err = CompileError::invalid_type_cast_error(errno, loc, caused_by.to_string(), name, &cast_to, &cast_to, hint);
    errors.push(err);

    let name_loc = Location::Range { ln_begin: 1, col_begin: 0, ln_end: 1, col_end: 8 };
    let superclass = TypeInfo::failure();
    let err = CompileError::override_error(errno, name_loc, name, &superclass, caused_by.to_string());
    errors.push(err);

    let err = CompileError::visibility_error(errno, Location::Line(1), caused_by.to_string(), name, "private");
    errors.push(err);

    let desc = "nunpy is not defined".to_string();
    let loc = Location::Range { ln_begin: 1, col_begin: 7, ln_end: 1, col_end: 12 };
    let similar_erg_mod: Option<String> = Some("numpyer".into());
    let similar_py_mod: Option<String> = Some("numpy".into());
    let err = CompileError::import_error(errno, loc, desc.clone(), caused_by.to_string(), similar_erg_mod.clone(), similar_py_mod.clone());
    errors.push(err);
    let err = CompileError::import_error(errno, loc, desc.clone(), caused_by.to_string(), None, similar_py_mod);
    errors.push(err);
    let err = CompileError::import_error(errno, loc, desc.clone(), caused_by.to_string(), similar_erg_mod, None);
    errors.push(err);

    for err in errors.iter() {
        println!("{err:?}");
    }
    assert_eq!(errors.len(), 8);
    assert_eq!(errors[0].loc, Location::Line(1));
    assert!(errors.iter().skip(1).all(|e| e.caused_by == caused_by && e.errno == 0));
    assert_eq!(errors[5].loc, loc);
    assert_eq!(errors[5].desc, desc);
}
