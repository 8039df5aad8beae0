//! The diagnostics raised while lowering the AST into the HIR: unknown,
//! duplicated or misused names, attributes and types, and the warnings of
//! the lowerer. Names and types are highlighted as `erg_common` highlights
//! them.
use vstd::prelude::*;

use crate::error::{
    Location, decimal, decimal_string, opt_str_view, opt_string_view, plain_error, readable,
    readable_name, strings_view, url_view, CompileError, ErrorKind, ErrorView,
};
use crate::hir::{t_of, Expr, Identifier};
use crate::style::{
    styled_str, styled_str_view, styled_string, styled_string_view, Emphasis, Role,
};
use crate::ty::TypeInfo;

verus! {

/// The diagnostics of the lowerer.
pub type LowerError = CompileError;

/// The warnings of the lowerer.
pub type LowerWarning = CompileError;

/// The error for the variable `name` assigned a second time in `caused_by`.
pub open spec fn reassign_view(
    errno: usize,
    loc: Location,
    caused_by: Seq<char>,
    name: Seq<char>,
) -> ErrorView {
    plain_error(
        errno,
        loc,
        ErrorKind::AssignError,
        "variable "@ + bold_str(readable(name), Role::Warning) + " cannot be assigned more than once"@,
        None,
        caused_by,
    )
}

/// A borrowed text highlighted in bold with the colour of `role`.
pub open spec fn bold_str(text: Seq<char>, role: Role) -> Seq<char> {
    styled_str_view(text, role, Some(Emphasis::Bold))
}

/// An owned text highlighted in bold with the colour of `role`.
pub open spec fn bold_string(text: Seq<char>, role: Role) -> Seq<char> {
    styled_string_view(text, role, Some(Emphasis::Bold))
}

/// The hint that points to a similar name: `lead` followed by the name
/// highlighted as a hint.
pub open spec fn similar_hint(lead: Seq<char>, similar: Option<Seq<char>>) -> Option<Seq<char>> {
    match similar {
        Some(n) => Some(lead + bold_str(n, Role::Hint)),
        None => None,
    }
}

fn similar_name_hint(lead: &str, similar: Option<&str>) -> (h: Option<String>)
    ensures
        opt_string_view(h) == similar_hint(lead@, opt_str_view(similar)),
{
    match similar {
        Some(n) => {
            let mut h = String::from_str(lead);
            let s = styled_str(n, Role::Hint, Some(Emphasis::Bold));
            h.append(s.as_str());
            Some(h)
        },
        None => None,
    }
}

/// The description of an expression whose value is dropped.
pub open spec fn unused_value_desc(expr: Expr) -> Seq<char> {
    "the evaluation result of the expression (: "@ + t_of(expr).name + ") is not used"@
}

fn unused_value_description(expr: &Expr) -> (s: String)
    ensures
        s@ == unused_value_desc(*expr),
{
    let mut s = String::from_str("the evaluation result of the expression (: ");
    let t = expr.t();
    s.append(t.name.as_str());
    s.append(") is not used");
    s
}

/// `name` in the colour of errors, as an undefined name is shown.
pub open spec fn not_found_name(name: Seq<char>) -> Seq<char> {
    bold_str(readable(name), Role::Error)
}

fn not_found_name_of(name: &str) -> (s: String)
    ensures
        s@ == not_found_name(name@),
{
    styled_str(readable_name(name), Role::Error, Some(Emphasis::Bold))
}

impl LowerError {
    /// A syntax error with the given description and hint.
    pub fn syntax_error(errno: usize, loc: Location, caused_by: String, desc: String, hint: Option<String>) -> (e: Self)
        ensures
            e@ == plain_error(errno, loc, ErrorKind::SyntaxError, desc@, opt_string_view(hint), caused_by@),
    {
        CompileError::new(errno, loc, ErrorKind::SyntaxError, desc, hint, caused_by)
    }

    /// The value of `expr` is computed and dropped.
    pub fn unused_expr_warning(errno: usize, loc: Location, expr: &Expr, caused_by: String) -> (e: Self)
        ensures
            e@ == plain_error(
                errno,
                loc,
                ErrorKind::UnusedWarning,
                unused_value_desc(*expr),
                Some("if you don't use the value, use "@ + bold_string("discard"@, Role::Hint)
                    + " function"@),
                caused_by@,
            ),
    {
        let desc = unused_value_description(expr);
        let mut hint = String::from_str("if you don't use the value, use ");
        let discard = styled_string("discard", Role::Hint, Some(Emphasis::Bold));
        hint.append(discard.as_str());
        hint.append(" function");
        CompileError::new(errno, loc, ErrorKind::UnusedWarning, desc, Some(hint), caused_by)
    }

    /// A subroutine is named as a statement without being called.
    pub fn unused_subroutine_warning(errno: usize, loc: Location, expr: &Expr, caused_by: String) -> (e: Self)
        ensures
            e@ == plain_error(
                errno,
                loc,
                ErrorKind::UnusedWarning,
                unused_value_desc(*expr),
                Some("perhaps you forgot the () in the call?"@),
                caused_by@,
            ),
    {
        let desc = unused_value_description(expr);
        let hint = String::from_str("perhaps you forgot the () in the call?");
        CompileError::new(errno, loc, ErrorKind::UnusedWarning, desc, Some(hint), caused_by)
    }

    /// `name` is declared twice.
    pub fn duplicate_decl_error(errno: usize, loc: Location, caused_by: String, name: &str) -> (e: Self)
        ensures
            e@ == plain_error(
                errno,
                loc,
                ErrorKind::NameError,
                readable(name@) + " is already declared"@,
                None,
                caused_by@,
            ),
    {
        let mut desc = String::from_str(readable_name(name));
        desc.append(" is already declared");
        CompileError::new(errno, loc, ErrorKind::NameError, desc, None, caused_by)
    }

    /// `name` is defined twice.
    pub fn duplicate_definition_error(errno: usize, loc: Location, caused_by: String, name: &str) -> (e: Self)
        ensures
            e@ == plain_error(
                errno,
                loc,
                ErrorKind::NameError,
                readable(name@) + " is already defined"@,
                None,
                caused_by@,
            ),
    {
        let mut desc = String::from_str(readable_name(name));
        desc.append(" is already defined");
        CompileError::new(errno, loc, ErrorKind::NameError, desc, None, caused_by)
    }

    /// `name` was declared of type `spec_t` but a `found_t` is assigned.
    pub fn violate_decl_error(
        errno: usize,
        loc: Location,
        caused_by: String,
        name: &str,
        spec_t: &TypeInfo,
        found_t: &TypeInfo,
    ) -> (e: Self)
        ensures
            e@ == plain_error(
                errno,
                loc,
                ErrorKind::TypeError,
                styled_str_view(readable(name@), Role::Warning, None) + " was declared as "@
                    + bold_string(spec_t.name@, Role::Hint) + ", but an "@ + bold_string(
                    found_t.name@,
                    Role::Error,
                ) + " object is assigned"@,
                None,
                caused_by@,
            ),
    {
        let mut desc = styled_str(readable_name(name), Role::Warning, None);
        desc.append(" was declared as ");
        let expect = styled_string(spec_t.name.as_str(), Role::Hint, Some(Emphasis::Bold));
        desc.append(expect.as_str());
        desc.append(", but an ");
        let found = styled_string(found_t.name.as_str(), Role::Error, Some(Emphasis::Bold));
        desc.append(found.as_str());
        desc.append(" object is assigned");
        CompileError::new(errno, loc, ErrorKind::TypeError, desc, None, caused_by)
    }

    /// `name` is not defined; `similar_name` is a defined name close to it.
    pub fn no_var_error(errno: usize, loc: Location, caused_by: String, name: &str, similar_name: Option<&str>) -> (e: Self)
        ensures
            e@ == plain_error(
                errno,
                loc,
                ErrorKind::NameError,
                not_found_name(name@) + " is not defined"@,
                similar_hint("exists a similar name variable: "@, opt_str_view(similar_name)),
                caused_by@,
            ),
    {
        let hint = similar_name_hint("exists a similar name variable: ", similar_name);
        let mut desc = not_found_name_of(name);
        desc.append(" is not defined");
        CompileError::new(errno, loc, ErrorKind::NameError, desc, hint, caused_by)
    }

    /// `name` is not a function that can be called at compile time.
    pub fn not_comptime_fn_error(errno: usize, loc: Location, caused_by: String, name: &str, similar_name: Option<&str>) -> (e:
        Self)
        ensures
            e@ == plain_error(
                errno,
                loc,
                ErrorKind::NameError,
                not_found_name(name@) + " is not a compile-time function"@,
                similar_hint("exists a similar name function: "@, opt_str_view(similar_name)),
                caused_by@,
            ),
    {
        let hint = similar_name_hint("exists a similar name function: ", similar_name);
        let mut desc = not_found_name_of(name);
        desc.append(" is not a compile-time function");
        CompileError::new(errno, loc, ErrorKind::NameError, desc, hint, caused_by)
    }
}


impl LowerError {
    /// `name` is not defined; the hint names a similar name and, when known,
    /// the display of its visibility (`similar_vis`).
    pub fn detailed_no_var_error(
        errno: usize,
        loc: Location,
        caused_by: String,
        name: &str,
        similar_name: Option<&str>,
        similar_vis: Option<&str>,
    ) -> (e: Self)
        ensures
            e@ == plain_error(
                errno,
                loc,
                ErrorKind::NameError,
                not_found_name(name@) + " is not defined"@,
                similar_hint(
                    "exists a similar name "@ + match similar_vis {
                        Some(v) => v@,
                        None => Seq::empty(),
                    } + " variable: "@,
                    opt_str_view(similar_name),
                ),
                caused_by@,
            ),
    {
        let mut lead = String::from_str("exists a similar name ");
        match similar_vis {
            Some(v) => lead.append(v),
            None => {},
        }
        lead.append(" variable: ");
        let hint = similar_name_hint(lead.as_str(), similar_name);
        let mut desc = not_found_name_of(name);
        desc.append(" is not defined");
        CompileError::new(errno, loc, ErrorKind::NameError, desc, hint, caused_by)
    }

    /// `name` is used before its definition at `defined_line`.
    pub fn access_before_def_error(
        errno: usize,
        loc: Location,
        caused_by: String,
        name: &str,
        defined_line: u32,
        similar_name: Option<&str>,
    ) -> (e: Self)
        ensures
            e@ == plain_error(
                errno,
                loc,
                ErrorKind::NameError,
                "cannot access "@ + not_found_name(name@) + " before its definition (line "@
                    + decimal(defined_line as nat) + ")"@,
                similar_hint("exists a similar name variable: "@, opt_str_view(similar_name)),
                caused_by@,
            ),
    {
        let hint = similar_name_hint("exists a similar name variable: ", similar_name);
        let mut desc = String::from_str("cannot access ");
        let found = not_found_name_of(name);
        desc.append(found.as_str());
        desc.append(" before its definition (line ");
        let l = decimal_string(defined_line as usize);
        desc.append(l.as_str());
        desc.append(")");
        CompileError::new(errno, loc, ErrorKind::NameError, desc, hint, caused_by)
    }

    /// `name` is used after it was deleted at `del_line`.
    pub fn access_deleted_var_error(
        errno: usize,
        loc: Location,
        caused_by: String,
        name: &str,
        del_line: u32,
        similar_name: Option<&str>,
    ) -> (e: Self)
        ensures
            e@ == plain_error(
                errno,
                loc,
                ErrorKind::NameError,
                "cannot access deleted variable "@ + not_found_name(name@) + " (deleted at line "@
                    + decimal(del_line as nat) + ")"@,
                similar_hint("exists a similar name variable: "@, opt_str_view(similar_name)),
                caused_by@,
            ),
    {
        let hint = similar_name_hint("exists a similar name variable: ", similar_name);
        let mut desc = String::from_str("cannot access deleted variable ");
        let found = not_found_name_of(name);
        desc.append(found.as_str());
        desc.append(" (deleted at line ");
        let l = decimal_string(del_line as usize);
        desc.append(l.as_str());
        desc.append(")");
        CompileError::new(errno, loc, ErrorKind::NameError, desc, hint, caused_by)
    }

    /// The type `name` is not defined.
    pub fn no_type_error(errno: usize, loc: Location, caused_by: String, name: &str, similar_name: Option<&str>) -> (e: Self)
        ensures
            e@ == plain_error(
                errno,
                loc,
                ErrorKind::NameError,
                "Type "@ + bold_string(readable(name@), Role::Error) + " is not defined"@,
                similar_hint("exists a similar name type: "@, opt_str_view(similar_name)),
                caused_by@,
            ),
    {
        let hint = similar_name_hint("exists a similar name type: ", similar_name);
        let mut desc = String::from_str("Type ");
        let found = styled_string(readable_name(name), Role::Error, Some(Emphasis::Bold));
        desc.append(found.as_str());
        desc.append(" is not defined");
        CompileError::new(errno, loc, ErrorKind::NameError, desc, hint, caused_by)
    }

    /// `name` is used as a type but is not one.
    pub fn not_a_type_error(errno: usize, loc: Location, caused_by: String, name: &str) -> (e: Self)
        ensures
            e@ == plain_error(
                errno,
                loc,
                ErrorKind::TypeError,
                bold_string(readable(name@), Role::Error) + " is not a type"@,
                Some("Do you mean {"@ + bold_str(readable(name@), Role::Hint) + "}, a type that has only "@
                    + bold_str(readable(name@), Role::Hint) + "?"@),
                caused_by@,
            ),
    {
        let shown = readable_name(name);
        let n = styled_str(shown, Role::Hint, Some(Emphasis::Bold));
        let mut hint = String::from_str("Do you mean {");
        hint.append(n.as_str());
        hint.append("}, a type that has only ");
        hint.append(n.as_str());
        hint.append("?");
        let mut desc = styled_string(shown, Role::Error, Some(Emphasis::Bold));
        desc.append(" is not a type");
        CompileError::new(errno, loc, ErrorKind::TypeError, desc, Some(hint), caused_by)
    }

    /// The type `typ` has no definition the compiler can find.
    pub fn type_not_found(errno: usize, loc: Location, caused_by: String, typ: &TypeInfo) -> (e: Self)
        ensures
            e@ == plain_error(
                errno,
                loc,
                ErrorKind::NameError,
                "Type "@ + bold_string(typ.name@, Role::Error) + " is not found"@,
                Some("This may be a bug of Erg compiler, please report to "@ + url_view()),
                caused_by@,
            ),
    {
        let mut desc = String::from_str("Type ");
        let t = styled_string(typ.name.as_str(), Role::Error, Some(Emphasis::Bold));
        desc.append(t.as_str());
        desc.append(" is not found");
        let mut hint = String::from_str("This may be a bug of Erg compiler, please report to ");
        let u = crate::error::url();
        hint.append(u.as_str());
        CompileError::new(errno, loc, ErrorKind::NameError, desc, Some(hint), caused_by)
    }

    /// An object of type `obj_t` has no attribute `name`.
    pub fn no_attr_error(
        errno: usize,
        loc: Location,
        caused_by: String,
        obj_t: &TypeInfo,
        name: &str,
        similar_name: Option<&str>,
    ) -> (e: Self)
        ensures
            e@ == plain_error(
                errno,
                loc,
                ErrorKind::AttributeError,
                obj_t.name@ + " object has no attribute "@ + bold_string(name@, Role::Error),
                match similar_name {
                    Some(n) => Some("has a similar name attribute: "@ + n@),
                    None => None,
                },
                caused_by@,
            ),
    {
        let hint = match similar_name {
            Some(n) => {
                let mut h = String::from_str("has a similar name attribute: ");
                h.append(n);
                Some(h)
            },
            None => None,
        };
        let mut desc = obj_t.name.clone();
        desc.append(" object has no attribute ");
        let found = styled_string(name, Role::Error, Some(Emphasis::Bold));
        desc.append(found.as_str());
        CompileError::new(errno, loc, ErrorKind::AttributeError, desc, hint, caused_by)
    }

    /// An object of type `obj_t` has no attribute `name`; the hint names a
    /// similar attribute with the displays of its visibility and kind
    /// (`similar_info`), when known.
    pub fn detailed_no_attr_error(
        errno: usize,
        loc: Location,
        caused_by: String,
        obj_t: &TypeInfo,
        name: &str,
        similar_name: Option<&str>,
        similar_info: Option<(&str, &str)>,
    ) -> (e: Self)
        ensures
            e@ == plain_error(
                errno,
                loc,
                ErrorKind::AttributeError,
                obj_t.name@ + " object has no attribute "@ + bold_string(name@, Role::Error),
                match similar_name {
                    Some(n) => Some(
                        "has a similar name "@ + match similar_info {
                            Some((v, _)) => v@,
                            None => Seq::empty(),
                        } + " "@ + match similar_info {
                            Some((_, k)) => k@,
                            None => Seq::empty(),
                        } + " attribute: "@ + n@,
                    ),
                    None => None,
                },
                caused_by@,
            ),
    {
        let hint = match similar_name {
            Some(n) => {
                let mut h = String::from_str("has a similar name ");
                match similar_info {
                    Some((v, _)) => h.append(v),
                    None => {},
                }
                h.append(" ");
                match similar_info {
                    Some((_, k)) => h.append(k),
                    None => {},
                }
                h.append(" attribute: ");
                h.append(n);
                Some(h)
            },
            None => None,
        };
        let mut desc = obj_t.name.clone();
        desc.append(" object has no attribute ");
        let found = styled_string(name, Role::Error, Some(Emphasis::Bold));
        desc.append(found.as_str());
        CompileError::new(errno, loc, ErrorKind::AttributeError, desc, hint, caused_by)
    }

    /// The object `obj_name` of type `obj_t` has no attribute `name`.
    pub fn singular_no_attr_error(
        errno: usize,
        loc: Location,
        caused_by: String,
        obj_name: &str,
        obj_t: &TypeInfo,
        name: &str,
        similar_name: Option<&str>,
    ) -> (e: Self)
        ensures
            e@ == plain_error(
                errno,
                loc,
                ErrorKind::AttributeError,
                obj_name@ + "(: "@ + obj_t.name@ + ") has no attribute "@ + bold_string(
                    name@,
                    Role::Error,
                ),
                similar_hint("has a similar name attribute: "@, opt_str_view(similar_name)),
                caused_by@,
            ),
    {
        let hint = similar_name_hint("has a similar name attribute: ", similar_name);
        let mut desc = String::from_str(obj_name);
        desc.append("(: ");
        desc.append(obj_t.name.as_str());
        desc.append(") has no attribute ");
        let found = styled_string(name, Role::Error, Some(Emphasis::Bold));
        desc.append(found.as_str());
        CompileError::new(errno, loc, ErrorKind::AttributeError, desc, hint, caused_by)
    }
}


/// The hint that suggests the right import form.
pub open spec fn import_hint(erg: bool, py: bool) -> Option<Seq<char>> {
    if py {
        Some("to import python modules, use "@ + bold_string("pyimport"@, Role::Accent) + if erg {
            Seq::empty()
        } else {
            " (not import)"@
        })
    } else if erg {
        Some("to import erg modules, use "@ + bold_string("import"@, Role::Accent) + " (not pyimport)"@)
    } else {
        None
    }
}

/// The notes that name the similar modules: the Erg one first.
pub open spec fn import_notes(erg: Option<Seq<char>>, py: Option<Seq<char>>) -> Seq<Seq<char>> {
    (match erg {
        Some(m) => seq!["similar name erg module exists: "@ + bold_string(m, Role::Hint)],
        None => Seq::empty(),
    }) + (match py {
        Some(m) => seq!["similar name python module exists: "@ + bold_string(m, Role::Hint)],
        None => Seq::empty(),
    })
}

impl LowerError {
    /// A variable is named like a special namespace (`module`, `global`).
    pub fn shadow_special_namespace_error(errno: usize, loc: Location, caused_by: String, name: &str) -> (e: Self)
        ensures
            e@ == plain_error(
                errno,
                loc,
                ErrorKind::AssignError,
                "cannot define variable with the same name as special namespace "@ + bold_str(
                    readable(name@),
                    Role::Warning,
                ),
                None,
                caused_by@,
            ),
    {
        let mut desc = String::from_str(
            "cannot define variable with the same name as special namespace ",
        );
        let n = styled_str(readable_name(name), Role::Warning, Some(Emphasis::Bold));
        desc.append(n.as_str());
        CompileError::new(errno, loc, ErrorKind::AssignError, desc, None, caused_by)
    }

    /// An immutable variable is assigned a second time.
    pub fn reassign_error(errno: usize, loc: Location, caused_by: String, name: &str) -> (e: Self)
        ensures
            e@ == reassign_view(errno, loc, caused_by@, name@),
    {
        let mut desc = String::from_str("variable ");
        let n = styled_str(readable_name(name), Role::Warning, Some(Emphasis::Bold));
        desc.append(n.as_str());
        desc.append(" cannot be assigned more than once");
        CompileError::new(errno, loc, ErrorKind::AssignError, desc, None, caused_by)
    }

    /// A constant (`is_const`) or a built-in variable cannot be deleted.
    pub fn del_error(errno: usize, loc: Location, ident: &Identifier, is_const: bool, caused_by: String) -> (e: Self)
        ensures
            e@ == plain_error(
                errno,
                loc,
                ErrorKind::NameError,
                (if is_const {
                    "constant"@
                } else {
                    "built-in variable"@
                }) + " "@ + bold_string(readable(ident.name@), Role::Warning) + " cannot be deleted"@,
                None,
                caused_by@,
            ),
    {
        let mut desc = if is_const {
            String::from_str("constant")
        } else {
            String::from_str("built-in variable")
        };
        desc.append(" ");
        let n = styled_string(readable_name(ident.inspect().as_str()), Role::Warning, Some(Emphasis::Bold));
        desc.append(n.as_str());
        desc.append(" cannot be deleted");
        CompileError::new(errno, loc, ErrorKind::NameError, desc, None, caused_by)
    }

    /// `name` is not visible here; `visibility` is the display of its
    /// visibility (such as `private`).
    pub fn visibility_error(errno: usize, loc: Location, caused_by: String, name: &str, visibility: &str) -> (e: Self)
        ensures
            e@ == plain_error(
                errno,
                loc,
                ErrorKind::VisibilityError,
                bold_string(readable(name@), Role::Error) + " is "@ + visibility@ + " variable"@,
                None,
                caused_by@,
            ),
    {
        let mut desc = styled_string(readable_name(name), Role::Error, Some(Emphasis::Bold));
        desc.append(" is ");
        desc.append(visibility);
        desc.append(" variable");
        CompileError::new(errno, loc, ErrorKind::VisibilityError, desc, None, caused_by)
    }

    /// `name` is already defined in `superclass` and is redefined without
    /// the `@Override` decorator.
    pub fn override_error(errno: usize, loc: Location, name: &str, superclass: &TypeInfo, caused_by: String) -> (e: Self)
        ensures
            e@ == (ErrorView {
                errno,
                loc,
                kind: ErrorKind::NameError,
                desc: bold_string(name@, Role::Error) + " is already defined in "@ + bold_string(
                    superclass.name@,
                    Role::Warning,
                ),
                notes: seq!["cannot override by default"@],
                hint: Some("use "@ + bold_string("@Override"@, Role::Hint) + " decorator"@),
                caused_by: caused_by@,
            }),
    {
        let mut hint = String::from_str("use ");
        let ovr = styled_string("@Override", Role::Hint, Some(Emphasis::Bold));
        hint.append(ovr.as_str());
        hint.append(" decorator");
        let mut desc = styled_string(name, Role::Error, Some(Emphasis::Bold));
        desc.append(" is already defined in ");
        let sup = styled_string(superclass.name.as_str(), Role::Warning, Some(Emphasis::Bold));
        desc.append(sup.as_str());
        let notes = vec![String::from_str("cannot override by default")];
        let e = CompileError { errno, loc, kind: ErrorKind::NameError, desc, notes, hint: Some(hint), caused_by };
        proof {
            assert(strings_view(e.notes@) =~= seq!["cannot override by default"@]);
        }
        e
    }

    /// The class `class` cannot be inherited from.
    pub fn inheritance_error(errno: usize, loc: Location, class: String, caused_by: String) -> (e: Self)
        ensures
            e@ == plain_error(
                errno,
                loc,
                ErrorKind::InheritanceError,
                class@ + " is not inheritable"@,
                None,
                caused_by@,
            ),
    {
        let mut desc = class;
        desc.append(" is not inheritable");
        CompileError::new(errno, loc, ErrorKind::InheritanceError, desc, None, caused_by)
    }

    /// A file could not be read or written.
    pub fn file_error(errno: usize, loc: Location, desc: String, caused_by: String, hint: Option<String>) -> (e: Self)
        ensures
            e@ == plain_error(errno, loc, ErrorKind::IoError, desc@, opt_string_view(hint), caused_by@),
    {
        CompileError::new(errno, loc, ErrorKind::IoError, desc, hint, caused_by)
    }

    /// The module `mod_name` does not exist on this platform.
    pub fn module_env_error(errno: usize, loc: Location, mod_name: &str, caused_by: String) -> (e: Self)
        ensures
            e@ == plain_error(
                errno,
                loc,
                ErrorKind::IoError,
                "module "@ + mod_name@ + " is not supported in your environment"@,
                None,
                caused_by@,
            ),
    {
        let mut desc = String::from_str("module ");
        desc.append(mod_name);
        desc.append(" is not supported in your environment");
        CompileError::file_error(errno, loc, desc, caused_by, None)
    }

    /// A module could not be imported; the notes name the Erg and Python
    /// modules with similar names, and the hint suggests `import` or
    /// `pyimport` accordingly.
    pub fn import_error(
        errno: usize,
        loc: Location,
        desc: String,
        caused_by: String,
        similar_erg_mod: Option<String>,
        similar_py_mod: Option<String>,
    ) -> (e: Self)
        ensures
            e@ == (ErrorView {
                errno,
                loc,
                kind: ErrorKind::ImportError,
                desc: desc@,
                notes: import_notes(opt_string_view(similar_erg_mod), opt_string_view(similar_py_mod)),
                hint: import_hint(similar_erg_mod is Some, similar_py_mod is Some),
                caused_by: caused_by@,
            }),
    {
        let has_erg = similar_erg_mod.is_some();
        let has_py = similar_py_mod.is_some();
        let mut notes: Vec<String> = Vec::new();
        match &similar_erg_mod {
            Some(m) => {
                let mut n = String::from_str("similar name erg module exists: ");
                let s = styled_string(m.as_str(), Role::Hint, Some(Emphasis::Bold));
                n.append(s.as_str());
                notes.push(n);
            },
            None => {},
        }
        match &similar_py_mod {
            Some(m) => {
                let mut n = String::from_str("similar name python module exists: ");
                let s = styled_string(m.as_str(), Role::Hint, Some(Emphasis::Bold));
                n.append(s.as_str());
                notes.push(n);
            },
            None => {},
        }
        let hint = if has_py {
            let mut h = String::from_str("to import python modules, use ");
            let s = styled_string("pyimport", Role::Accent, Some(Emphasis::Bold));
            h.append(s.as_str());
            if !has_erg {
                h.append(" (not import)");
            }
            Some(h)
        } else if has_erg {
            let mut h = String::from_str("to import erg modules, use ");
            let s = styled_string("import", Role::Accent, Some(Emphasis::Bold));
            h.append(s.as_str());
            h.append(" (not pyimport)");
            Some(h)
        } else {
            None
        };
        let e = CompileError { errno, loc, kind: ErrorKind::ImportError, desc, notes, hint, caused_by };
        proof {
            assert(strings_view(e.notes@) =~= import_notes(
                opt_string_view(similar_erg_mod),
                opt_string_view(similar_py_mod),
            ));
        }
        e
    }

    /// A type is defined below the top level.
    pub fn inner_typedef_error(errno: usize, loc: Location, caused_by: String) -> (e: Self)
        ensures
            e@ == plain_error(
                errno,
                loc,
                ErrorKind::TypeError,
                "types must be defined at the top level"@,
                None,
                caused_by@,
            ),
    {
        CompileError::new(
            errno,
            loc,
            ErrorKind::TypeError,
            String::from_str("types must be defined at the top level"),
            None,
            caused_by,
        )
    }

    /// A declaration appears outside a `d.er` file.
    pub fn declare_error(errno: usize, loc: Location, caused_by: String) -> (e: Self)
        ensures
            e@ == plain_error(
                errno,
                loc,
                ErrorKind::SyntaxError,
                "declarations and alias definitions are only allowed in d.er files"@,
                None,
                caused_by@,
            ),
    {
        CompileError::new(
            errno,
            loc,
            ErrorKind::SyntaxError,
            String::from_str("declarations and alias definitions are only allowed in d.er files"),
            None,
            caused_by,
        )
    }

    /// `name` of type `base` cannot be cast to `cast_to`.
    pub fn invalid_type_cast_error(
        errno: usize,
        loc: Location,
        caused_by: String,
        name: &str,
        base: &TypeInfo,
        cast_to: &TypeInfo,
        hint: Option<String>,
    ) -> (e: Self)
        ensures
            e@ == plain_error(
                errno,
                loc,
                ErrorKind::TypeError,
                bold_string(name@, Role::Warning) + ": "@ + bold_string(base.name@, Role::Warning)
                    + " cannot be cast to "@ + bold_string(cast_to.name@, Role::Error),
                opt_string_view(hint),
                caused_by@,
            ),
    {
        let mut desc = styled_string(name, Role::Warning, Some(Emphasis::Bold));
        desc.append(": ");
        let b = styled_string(base.name.as_str(), Role::Warning, Some(Emphasis::Bold));
        desc.append(b.as_str());
        desc.append(" cannot be cast to ");
        let f = styled_string(cast_to.name.as_str(), Role::Error, Some(Emphasis::Bold));
        desc.append(f.as_str());
        CompileError::new(errno, loc, ErrorKind::TypeError, desc, hint, caused_by)
    }

}

impl LowerWarning {
    /// `name` is defined but never used.
    pub fn unused_warning(errno: usize, loc: Location, name: &str, caused_by: String) -> (e: Self)
        ensures
            e@ == plain_error(
                errno,
                loc,
                ErrorKind::UnusedWarning,
                bold_string(readable(name@), Role::Warning) + " is not used"@,
                None,
                caused_by@,
            ),
    {
        let mut desc = styled_string(readable_name(name), Role::Warning, Some(Emphasis::Bold));
        desc.append(" is not used");
        CompileError::new(errno, loc, ErrorKind::UnusedWarning, desc, None, caused_by)
    }

    /// The inferred return type `typ` of `fn_name` is a union.
    pub fn union_return_type_warning(errno: usize, loc: Location, caused_by: String, fn_name: &str, typ: &TypeInfo) -> (e: Self)
        ensures
            e@ == plain_error(
                errno,
                loc,
                ErrorKind::TypeWarning,
                "the return type of function "@ + styled_str_view(fn_name@, Role::Warning, None)
                    + " is not single"@,
                Some("please explicitly specify the return type of function "@ + styled_str_view(
                    fn_name@,
                    Role::Warning,
                    None,
                ) + ", for example `"@ + styled_str_view(fn_name@, Role::Warning, None)
                    + "(...): "@ + typ.name@ + " = ...`"@),
                caused_by@,
            ),
    {
        let f = styled_str(fn_name, Role::Warning, None);
        let mut hint = String::from_str("please explicitly specify the return type of function ");
        hint.append(f.as_str());
        hint.append(", for example `");
        hint.append(f.as_str());
        hint.append("(...): ");
        hint.append(typ.name.as_str());
        hint.append(" = ...`");
        let mut desc = String::from_str("the return type of function ");
        desc.append(f.as_str());
        desc.append(" is not single");
        CompileError::new(errno, loc, ErrorKind::TypeWarning, desc, Some(hint), caused_by)
    }

    /// A built-in function named `name` already exists.
    pub fn builtin_exists_warning(errno: usize, loc: Location, caused_by: String, name: &str) -> (e: Self)
        ensures
            e@ == plain_error(
                errno,
                loc,
                ErrorKind::NameWarning,
                "a built-in function named "@ + bold_str(readable(name@), Role::Warning)
                    + " already exists"@,
                None,
                caused_by@,
            ),
    {
        let mut desc = String::from_str("a built-in function named ");
        let n = styled_str(readable_name(name), Role::Warning, Some(Emphasis::Bold));
        desc.append(n.as_str());
        desc.append(" already exists");
        CompileError::new(errno, loc, ErrorKind::NameWarning, desc, None, caused_by)
    }

    /// `typing.cast` is used.
    pub fn use_cast_warning(errno: usize, loc: Location, caused_by: String) -> (e: Self)
        ensures
            e@ == plain_error(
                errno,
                loc,
                ErrorKind::TypeWarning,
                "using typing.cast is not recommended, please use type narrowing etc. instead"@,
                None,
                caused_by@,
            ),
    {
        CompileError::new(
            errno,
            loc,
            ErrorKind::TypeWarning,
            String::from_str(
                "using typing.cast is not recommended, please use type narrowing etc. instead",
            ),
            None,
            caused_by,
        )
    }

    /// An instance attribute named `name` already exists.
    pub fn same_name_instance_attr_warning(errno: usize, loc: Location, caused_by: String, name: &str) -> (e: Self)
        ensures
            e@ == plain_error(
                errno,
                loc,
                ErrorKind::NameWarning,
                "an instance attribute named "@ + bold_str(readable(name@), Role::Warning)
                    + " already exists"@,
                None,
                caused_by@,
            ),
    {
        let mut desc = String::from_str("an instance attribute named ");
        let n = styled_str(readable_name(name), Role::Warning, Some(Emphasis::Bold));
        desc.append(n.as_str());
        desc.append(" already exists");
        CompileError::new(errno, loc, ErrorKind::NameWarning, desc, None, caused_by)
    }
}

} // verus!
