//! Highlighting of words in diagnostics.
//!
//! Diagnostics colour the names and types they mention with the colours of
//! the theme of `erg_common`. The two displays of `erg_common` differ in the
//! order in which they print the colour and the attribute: `StyledStr` (a
//! borrowed text) prints the colour first, `StyledString` (an owned text)
//! the attribute first.
use vstd::prelude::*;

verus! {

/// The role of a highlighted word; each role has its colour in the theme:
/// errors red, warnings yellow, hints green, accents white.
#[derive(Debug, Clone, Copy, PartialEq, Eq, Structural)]
pub enum Role {
    Error,
    Warning,
    Hint,
    Accent,
}

/// The text attribute of a highlighted word.
#[derive(Debug, Clone, Copy, PartialEq, Eq, Structural)]
pub enum Emphasis {
    Bold,
    Underline,
}

/// The escape sequence that selects the colour of a role.
pub open spec fn color_code(r: Role) -> Seq<char> {
    match r {
        Role::Error => "\x1b[91m"@,
        Role::Warning => "\x1b[93m"@,
        Role::Hint => "\x1b[92m"@,
        Role::Accent => "\x1b[97m"@,
    }
}

/// The escape sequence that selects an attribute.
pub open spec fn emphasis_code(e: Emphasis) -> Seq<char> {
    match e {
        Emphasis::Bold => "\x1b[1m"@,
        Emphasis::Underline => "\x1b[4m"@,
    }
}

/// The escape sequence that resets the colour.
pub open spec fn color_reset() -> Seq<char> {
    "\x1b[m"@
}

/// The escape sequence that resets the attribute.
pub open spec fn attr_reset() -> Seq<char> {
    "\x1b[0m"@
}

/// How a borrowed text is displayed: colour, attribute, text, resets.
pub open spec fn styled_str_view(text: Seq<char>, role: Role, emph: Option<Emphasis>) -> Seq<char> {
    match emph {
        None => color_code(role) + text + color_reset(),
        Some(e) => color_code(role) + emphasis_code(e) + text + color_reset() + attr_reset(),
    }
}

/// How an owned text is displayed: attribute, colour, text, resets.
pub open spec fn styled_string_view(text: Seq<char>, role: Role, emph: Option<Emphasis>) -> Seq<
    char,
> {
    match emph {
        None => color_code(role) + text + color_reset(),
        Some(e) => emphasis_code(e) + color_code(role) + text + color_reset() + attr_reset(),
    }
}

/// The display of `erg_common::style::StyledStr::new(text, Some(colour),
/// attribute)`, the colour being the theme's colour of `role`. The claimed
/// escape sequences are those of `erg_common` built without its `pretty`
/// feature, which this crate does not enable.
#[verifier::external_body]
pub(crate) fn styled_str(text: &str, role: Role, emph: Option<Emphasis>) -> (r: String)
    ensures
        r@ == styled_str_view(text@, role, emph),
{
    let color = match role {
        Role::Error => erg_common::style::THEME.colors.error,
        Role::Warning => erg_common::style::THEME.colors.warning,
        Role::Hint => erg_common::style::THEME.colors.hint,
        Role::Accent => erg_common::style::THEME.colors.accent,
    };
    let attr = match emph {
        Some(Emphasis::Bold) => Some(erg_common::style::Attribute::Bold),
        Some(Emphasis::Underline) => Some(erg_common::style::Attribute::Underline),
        None => None,
    };
    erg_common::style::StyledStr::new(text, Some(color), attr).to_string()
}

/// The display of `erg_common::style::StyledString::new(text, Some(colour),
/// attribute)`, the colour being the theme's colour of `role`; the escape
/// sequences are those of `erg_common` built without its `pretty` feature.
#[verifier::external_body]
pub(crate) fn styled_string(text: &str, role: Role, emph: Option<Emphasis>) -> (r: String)
    ensures
        r@ == styled_string_view(text@, role, emph),
{
    let color = match role {
        Role::Error => erg_common::style::THEME.colors.error,
        Role::Warning => erg_common::style::THEME.colors.warning,
        Role::Hint => erg_common::style::THEME.colors.hint,
        Role::Accent => erg_common::style::THEME.colors.accent,
    };
    let attr = match emph {
        Some(Emphasis::Bold) => Some(erg_common::style::Attribute::Bold),
        Some(Emphasis::Underline) => Some(erg_common::style::Attribute::Underline),
        None => None,
    };
    erg_common::style::StyledString::new(text, Some(color), attr).to_string()
}

} // verus!
