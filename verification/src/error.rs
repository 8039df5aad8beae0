//! Diagnostics: the error values of the checkers and the naming helpers
//! that turn operator names into their readable or "double under" forms.
use vstd::prelude::*;

use crate::hir::{access_display_of, root_obj_of, t_of, var_info_of, Accessor, Expr};
use crate::strutil::str_eq;
use crate::style::{styled_str, styled_str_view, styled_string, styled_string_view, Emphasis, Role};

verus! {

/// The view of an optional string slice.
pub open spec fn opt_str_view(o: Option<&str>) -> Option<Seq<char>> {
    match o {
        Some(s) => Some(s@),
        None => None,
    }
}

/// The "double under" method name of a binary operator.
pub open spec fn binop_dname(op: Seq<char>) -> Option<Seq<char>> {
    if op == "+"@ {
        Some("__add__"@)
    } else if op == "-"@ {
        Some("__sub__"@)
    } else if op == "*"@ {
        Some("__mul__"@)
    } else if op == "/"@ {
        Some("__div__"@)
    } else if op == "//"@ {
        Some("__floordiv__"@)
    } else if op == "**"@ {
        Some("__pow__"@)
    } else if op == "%"@ {
        Some("__mod__"@)
    } else if op == "@"@ {
        Some("__matmul__"@)
    } else if op == ".."@ {
        Some("__rng__"@)
    } else if op == "<.."@ {
        Some("__lorng__"@)
    } else if op == "..<"@ {
        Some("__rorng__"@)
    } else if op == "<..<"@ {
        Some("__orng__"@)
    } else if op == "&&"@ {
        Some("__and__"@)
    } else if op == "&"@ {
        Some("__and__"@)
    } else if op == "and"@ {
        Some("__and__"@)
    } else if op == "||"@ {
        Some("__or__"@)
    } else if op == "|"@ {
        Some("__or__"@)
    } else if op == "or"@ {
        Some("__or__"@)
    } else if op == "^^"@ {
        Some("__xor__"@)
    } else if op == "^"@ {
        Some("__xor__"@)
    } else if op == "as"@ {
        Some("__as__"@)
    } else if op == "contains"@ {
        Some("__contains__"@)
    } else if op == "subof"@ {
        Some("__subof__"@)
    } else if op == "supof"@ {
        Some("__supof__"@)
    } else if op == "is!"@ {
        Some("__is__!"@)
    } else if op == "isnot!"@ {
        Some("__isnot__!"@)
    } else if op == "=="@ {
        Some("__eq__"@)
    } else if op == "!="@ {
        Some("__ne__"@)
    } else if op == "<"@ {
        Some("__lt__"@)
    } else if op == "<="@ {
        Some("__le__"@)
    } else if op == ">"@ {
        Some("__gt__"@)
    } else if op == ">="@ {
        Some("__ge__"@)
    } else if op == "<<"@ {
        Some("__lshift__"@)
    } else if op == ">>"@ {
        Some("__rshift__"@)
    } else {
        None
    }
}
/// Looks up the method name that implements the binary operator `op`.
pub fn binop_to_dname(op: &str) -> (r: Option<&str>)
    ensures
        opt_str_view(r) == binop_dname(op@),
{
    if str_eq(op, "+") {
        return Some("__add__");
    }
    if str_eq(op, "-") {
        return Some("__sub__");
    }
    if str_eq(op, "*") {
        return Some("__mul__");
    }
    if str_eq(op, "/") {
        return Some("__div__");
    }
    if str_eq(op, "//") {
        return Some("__floordiv__");
    }
    if str_eq(op, "**") {
        return Some("__pow__");
    }
    if str_eq(op, "%") {
        return Some("__mod__");
    }
    if str_eq(op, "@") {
        return Some("__matmul__");
    }
    if str_eq(op, "..") {
        return Some("__rng__");
    }
    if str_eq(op, "<..") {
        return Some("__lorng__");
    }
    if str_eq(op, "..<") {
        return Some("__rorng__");
    }
    if str_eq(op, "<..<") {
        return Some("__orng__");
    }
    if str_eq(op, "&&") {
        return Some("__and__");
    }
    if str_eq(op, "&") {
        return Some("__and__");
    }
    if str_eq(op, "and") {
        return Some("__and__");
    }
    if str_eq(op, "||") {
        return Some("__or__");
    }
    if str_eq(op, "|") {
        return Some("__or__");
    }
    if str_eq(op, "or") {
        return Some("__or__");
    }
    if str_eq(op, "^^") {
        return Some("__xor__");
    }
    if str_eq(op, "^") {
        return Some("__xor__");
    }
    if str_eq(op, "as") {
        return Some("__as__");
    }
    if str_eq(op, "contains") {
        return Some("__contains__");
    }
    if str_eq(op, "subof") {
        return Some("__subof__");
    }
    if str_eq(op, "supof") {
        return Some("__supof__");
    }
    if str_eq(op, "is!") {
        return Some("__is__!");
    }
    if str_eq(op, "isnot!") {
        return Some("__isnot__!");
    }
    if str_eq(op, "==") {
        return Some("__eq__");
    }
    if str_eq(op, "!=") {
        return Some("__ne__");
    }
    if str_eq(op, "<") {
        return Some("__lt__");
    }
    if str_eq(op, "<=") {
        return Some("__le__");
    }
    if str_eq(op, ">") {
        return Some("__gt__");
    }
    if str_eq(op, ">=") {
        return Some("__ge__");
    }
    if str_eq(op, "<<") {
        return Some("__lshift__");
    }
    if str_eq(op, ">>") {
        return Some("__rshift__");
    }
    None
}
/// The "double under" method name of a unary operator.
pub open spec fn unaryop_dname(op: Seq<char>) -> Option<Seq<char>> {
    if op == "+"@ {
        Some("__pos__"@)
    } else if op == "-"@ {
        Some("__neg__"@)
    } else if op == "~"@ {
        Some("__invert__"@)
    } else if op == "!"@ {
        Some("__mutate__"@)
    } else if op == "..."@ {
        Some("__spread__"@)
    } else {
        None
    }
}
/// Looks up the method name that implements the unary operator `op`.
pub fn unaryop_to_dname(op: &str) -> (r: Option<&str>)
    ensures
        opt_str_view(r) == unaryop_dname(op@),
{
    if str_eq(op, "+") {
        return Some("__pos__");
    }
    if str_eq(op, "-") {
        return Some("__neg__");
    }
    if str_eq(op, "~") {
        return Some("__invert__");
    }
    if str_eq(op, "!") {
        return Some("__mutate__");
    }
    if str_eq(op, "...") {
        return Some("__spread__");
    }
    None
}
/// The name shown to users for a (possibly "double under") name.
pub open spec fn readable(name: Seq<char>) -> Seq<char> {
    if name == "__add__"@ {
        "`+`"@
    } else if name == "__sub__"@ {
        "`-`"@
    } else if name == "__mul__"@ {
        "`*`"@
    } else if name == "__div__"@ {
        "`/`"@
    } else if name == "__floordiv__"@ {
        "`//`"@
    } else if name == "__pow__"@ {
        "`**`"@
    } else if name == "__mod__"@ {
        "`%`"@
    } else if name == "__matmul__"@ {
        "`@`"@
    } else if name == "__rng__"@ {
        "`..`"@
    } else if name == "__lorng__"@ {
        "`<..`"@
    } else if name == "__rorng__"@ {
        "`..<`"@
    } else if name == "__orng__"@ {
        "`<..<`"@
    } else if name == "__as__"@ {
        "`as`"@
    } else if name == "__and__"@ {
        "`and`"@
    } else if name == "__or__"@ {
        "`or`"@
    } else if name == "__contains__"@ {
        "`contains`"@
    } else if name == "__subof__"@ {
        "`subof`"@
    } else if name == "__supof__"@ {
        "`supof`"@
    } else if name == "__is__!"@ {
        "`is!`"@
    } else if name == "__isnot__!"@ {
        "`isnot!`"@
    } else if name == "__eq__"@ {
        "`==`"@
    } else if name == "__ne__"@ {
        "`!=`"@
    } else if name == "__lt__"@ {
        "`<`"@
    } else if name == "__le__"@ {
        "`<=`"@
    } else if name == "__gt__"@ {
        "`>`"@
    } else if name == "__ge__"@ {
        "`>=`"@
    } else if name == "__pos__"@ {
        "`+`"@
    } else if name == "__neg__"@ {
        "`-`"@
    } else if name == "__invert__"@ {
        "`~`"@
    } else if name == "__mutate__"@ {
        "`!`"@
    } else if name == "__spread__"@ {
        "`...`"@
    } else if name == "__lshift__"@ {
        "`<<`"@
    } else if name == "__rshift__"@ {
        "`>>`"@
    } else {
        name
    }
}
/// Shows an operator method by its operator in backquotes; other names unchanged.
pub fn readable_name(name: &str) -> (r: &str)
    ensures
        r@ == readable(name@),
{
    if str_eq(name, "__add__") {
        return "`+`";
    }
    if str_eq(name, "__sub__") {
        return "`-`";
    }
    if str_eq(name, "__mul__") {
        return "`*`";
    }
    if str_eq(name, "__div__") {
        return "`/`";
    }
    if str_eq(name, "__floordiv__") {
        return "`//`";
    }
    if str_eq(name, "__pow__") {
        return "`**`";
    }
    if str_eq(name, "__mod__") {
        return "`%`";
    }
    if str_eq(name, "__matmul__") {
        return "`@`";
    }
    if str_eq(name, "__rng__") {
        return "`..`";
    }
    if str_eq(name, "__lorng__") {
        return "`<..`";
    }
    if str_eq(name, "__rorng__") {
        return "`..<`";
    }
    if str_eq(name, "__orng__") {
        return "`<..<`";
    }
    if str_eq(name, "__as__") {
        return "`as`";
    }
    if str_eq(name, "__and__") {
        return "`and`";
    }
    if str_eq(name, "__or__") {
        return "`or`";
    }
    if str_eq(name, "__contains__") {
        return "`contains`";
    }
    if str_eq(name, "__subof__") {
        return "`subof`";
    }
    if str_eq(name, "__supof__") {
        return "`supof`";
    }
    if str_eq(name, "__is__!") {
        return "`is!`";
    }
    if str_eq(name, "__isnot__!") {
        return "`isnot!`";
    }
    if str_eq(name, "__eq__") {
        return "`==`";
    }
    if str_eq(name, "__ne__") {
        return "`!=`";
    }
    if str_eq(name, "__lt__") {
        return "`<`";
    }
    if str_eq(name, "__le__") {
        return "`<=`";
    }
    if str_eq(name, "__gt__") {
        return "`>`";
    }
    if str_eq(name, "__ge__") {
        return "`>=`";
    }
    if str_eq(name, "__pos__") {
        return "`+`";
    }
    if str_eq(name, "__neg__") {
        return "`-`";
    }
    if str_eq(name, "__invert__") {
        return "`~`";
    }
    if str_eq(name, "__mutate__") {
        return "`!`";
    }
    if str_eq(name, "__spread__") {
        return "`...`";
    }
    if str_eq(name, "__lshift__") {
        return "`<<`";
    }
    if str_eq(name, "__rshift__") {
        return "`>>`";
    }
    name
}

/// The character of a decimal digit.
pub open spec fn digit_char(d: nat) -> char {
    (d + 48) as char
}

/// The decimal representation of `n`, most significant digit first.
pub open spec fn decimal(n: nat) -> Seq<char>
    decreases n,
{
    if n < 10 {
        seq![digit_char(n)]
    } else {
        decimal(n / 10).push(digit_char(n % 10))
    }
}

/// The English ordinal of `n`, chosen by the last digit of its decimal form
/// (so `11` reads "11st").
pub open spec fn ordinal(n: nat) -> Seq<char> {
    let digits = decimal(n);
    let last = digits.last();
    digits + if last == '1' {
        seq!['s', 't']
    } else if last == '2' {
        seq!['n', 'd']
    } else if last == '3' {
        seq!['r', 'd']
    } else {
        seq!['t', 'h']
    }
}

fn digit_str(d: usize) -> (s: &'static str)
    requires
        d < 10,
    ensures
        s@ == seq![digit_char(d as nat)],
{
    proof {
        reveal_strlit("0");
        reveal_strlit("1");
        reveal_strlit("2");
        reveal_strlit("3");
        reveal_strlit("4");
        reveal_strlit("5");
        reveal_strlit("6");
        reveal_strlit("7");
        reveal_strlit("8");
        reveal_strlit("9");
    }
    if d == 0 {
        "0"
    } else if d == 1 {
        "1"
    } else if d == 2 {
        "2"
    } else if d == 3 {
        "3"
    } else if d == 4 {
        "4"
    } else if d == 5 {
        "5"
    } else if d == 6 {
        "6"
    } else if d == 7 {
        "7"
    } else if d == 8 {
        "8"
    } else {
        "9"
    }
}

/// Writes `n` in decimal.
pub fn decimal_string(n: usize) -> (s: String)
    ensures
        s@ == decimal(n as nat),
    decreases n,
{
    if n < 10 {
        String::from_str(digit_str(n))
    } else {
        let mut s = decimal_string(n / 10);
        s.append(digit_str(n % 10));
        s
    }
}

/// `1st`, `2nd`, `3rd`, `4th`, ... by the last decimal digit of `n`.
pub fn ordinal_num(n: usize) -> (s: String)
    ensures
        s@ == ordinal(n as nat),
{
    let mut s = decimal_string(n);
    let last = n % 10;
    proof {
        reveal_strlit("st");
        reveal_strlit("nd");
        reveal_strlit("rd");
        reveal_strlit("th");
        assert(decimal(n as nat).last() == digit_char(last as nat));
    }
    if last == 1 {
        s.append("st");
    } else if last == 2 {
        s.append("nd");
    } else if last == 3 {
        s.append("rd");
    } else {
        s.append("th");
    }
    s
}

/// The kinds of diagnostics.
#[derive(Debug, Clone, Copy, PartialEq, Eq, Structural)]
pub enum ErrorKind {
    AssignError,
    AttributeError,
    CompilerSystemError,
    FeatureError,
    HasEffect,
    ImportError,
    InheritanceError,
    IoError,
    MoveError,
    NameError,
    NotConstExpr,
    SyntaxError,
    SystemExit,
    TypeError,
    VisibilityError,
    NameWarning,
    TypeWarning,
    UnusedWarning,
}

/// Where in the source a diagnostic points: a range of lines and columns
/// (lines counted from 1, columns from 0), a range of lines, one line, or
/// nowhere known.
#[derive(Debug, Clone, Copy, PartialEq, Eq, Structural)]
pub enum Location {
    Range { ln_begin: u32, col_begin: u32, ln_end: u32, col_end: u32 },
    LineRange(u32, u32),
    Line(u32),
    Unknown,
}

impl Location {
    /// The first line, when known.
    pub open spec fn spec_ln_begin(self) -> Option<u32> {
        match self {
            Location::Range { ln_begin, .. } => Some(ln_begin),
            Location::LineRange(b, _) => Some(b),
            Location::Line(l) => Some(l),
            Location::Unknown => None,
        }
    }

    pub fn ln_begin(&self) -> (r: Option<u32>)
        ensures
            r == self.spec_ln_begin(),
    {
        match self {
            Location::Range { ln_begin, .. } => Some(*ln_begin),
            Location::LineRange(b, _) => Some(*b),
            Location::Line(l) => Some(*l),
            Location::Unknown => None,
        }
    }
}

/// A diagnostic: its kind, its number (the place that raised it), the
/// location it points at, its (English) message, the notes shown beside
/// the offending location, an optional hint and the name of the scope that
/// caused it.
#[derive(Debug)]
pub struct CompileError {
    pub kind: ErrorKind,
    pub errno: usize,
    pub loc: Location,
    pub desc: String,
    pub notes: Vec<String>,
    pub hint: Option<String>,
    pub caused_by: String,
}

/// The mathematical value of a diagnostic.
pub struct ErrorView {
    pub kind: ErrorKind,
    pub errno: usize,
    pub loc: Location,
    pub desc: Seq<char>,
    pub notes: Seq<Seq<char>>,
    pub hint: Option<Seq<char>>,
    pub caused_by: Seq<char>,
}

/// The views of a sequence of strings.
pub open spec fn strings_view(v: Seq<String>) -> Seq<Seq<char>> {
    v.map_values(|s: String| s@)
}

/// The view of an optional string.
pub open spec fn opt_string_view(s: Option<String>) -> Option<Seq<char>> {
    match s {
        Some(x) => Some(x@),
        None => None,
    }
}

impl View for CompileError {
    type V = ErrorView;

    open spec fn view(&self) -> ErrorView {
        ErrorView {
            kind: self.kind,
            errno: self.errno,
            loc: self.loc,
            desc: self.desc@,
            notes: strings_view(self.notes@),
            hint: opt_string_view(self.hint),
            caused_by: self.caused_by@,
        }
    }
}

/// A diagnostic without notes.
pub open spec fn plain_error(
    errno: usize,
    loc: Location,
    kind: ErrorKind,
    desc: Seq<char>,
    hint: Option<Seq<char>>,
    caused_by: Seq<char>,
) -> ErrorView {
    ErrorView { kind, errno, loc, desc, notes: Seq::empty(), hint, caused_by }
}

impl CompileError {
    /// A diagnostic without notes.
    pub fn new(
        errno: usize,
        loc: Location,
        kind: ErrorKind,
        desc: String,
        hint: Option<String>,
        caused_by: String,
    ) -> (e: Self)
        ensures
            e.kind == kind,
            e.errno == errno,
            e.loc == loc,
            e.desc == desc,
            e.notes@ == Seq::<String>::empty(),
            e.hint == hint,
            e.caused_by == caused_by,
            e@ == plain_error(errno, loc, kind, desc@, opt_string_view(hint), caused_by@),
    {
        let e = CompileError { kind, errno, loc, desc, notes: Vec::new(), hint, caused_by };
        proof {
            assert(strings_view(e.notes@) =~= Seq::empty());
        }
        e
    }
}

/// A sequence of diagnostics, in the order they were raised.
#[derive(Debug)]
pub struct CompileErrors(pub Vec<CompileError>);

/// The views of a sequence of diagnostics.
pub open spec fn errors_view(errs: Seq<CompileError>) -> Seq<ErrorView> {
    errs.map_values(|e: CompileError| e@)
}

impl View for CompileErrors {
    type V = Seq<ErrorView>;

    open spec fn view(&self) -> Seq<ErrorView> {
        errors_view(self.0@)
    }
}

impl CompileErrors {
    pub fn empty() -> (r: Self)
        ensures
            r@ == Seq::<ErrorView>::empty(),
    {
        CompileErrors(Vec::new())
    }

    pub fn from_vec(errs: Vec<CompileError>) -> (r: Self)
        ensures
            r@ == errors_view(errs@),
    {
        CompileErrors(errs)
    }

    pub fn single(err: CompileError) -> (r: Self)
        ensures
            r@ == seq![err@],
    {
        let mut v = Vec::new();
        v.push(err);
        let r = CompileErrors(v);
        assert(r@ =~= seq![err@]);
        r
    }

    pub fn push(&mut self, err: CompileError)
        ensures
            final(self)@ == old(self)@.push(err@),
    {
        self.0.push(err);
        assert(final(self)@ =~= old(self)@.push(err@));
    }

    pub fn extend(&mut self, other: CompileErrors)
        ensures
            final(self)@ == old(self)@ + other@,
    {
        let ghost added = other@;
        let mut other = other;
        self.0.append(&mut other.0);
        assert(self@ =~= old(self)@ + added);
    }

    pub fn len(&self) -> (n: usize)
        ensures
            n == self@.len(),
    {
        self.0.len()
    }

    pub fn is_empty(&self) -> (b: bool)
        ensures
            b == (self@.len() == 0),
    {
        self.0.len() == 0
    }

    /// Moves all errors out, leaving `self` empty.
    pub fn flush(&mut self) -> (r: Self)
        ensures
            r@ == old(self)@,
            final(self)@ == Seq::<ErrorView>::empty(),
    {
        let mut taken = Vec::new();
        std::mem::swap(&mut taken, &mut self.0);
        let r = CompileErrors(taken);
        assert(final(self)@ =~= Seq::<ErrorView>::empty());
        r
    }

    /// Same as `flush`.
    pub fn take(&mut self) -> (r: Self)
        ensures
            r@ == old(self)@,
            final(self)@ == Seq::<ErrorView>::empty(),
    {
        self.flush()
    }
}

/// The diagnostics of the side-effect checker.
pub type EffectError = CompileError;

/// `this expression causes a side-effect`
pub open spec fn has_effect_view(errno: usize, loc: Location, caused_by: Seq<char>) -> ErrorView {
    plain_error(errno, loc, ErrorKind::HasEffect, "this expression causes a side-effect"@, None, caused_by)
}

/// The constructor or destructor of the instance a call creates has side effects.
pub open spec fn constructor_destructor_view(errno: usize, loc: Location, caused_by: Seq<char>) -> ErrorView {
    plain_error(
        errno,
        loc,
        ErrorKind::HasEffect,
        "the constructor and destructor of this object have side-effects, so they cannot be called inside a function"@,
        None,
        caused_by,
    )
}

/// A procedure is bound to a name without `!`.
pub open spec fn proc_assign_view(errno: usize, loc: Location, caused_by: Seq<char>) -> ErrorView {
    plain_error(
        errno,
        loc,
        ErrorKind::HasEffect,
        "cannot assign a procedure to a normal variable"@,
        Some("add "@ + styled_string_view("!"@, Role::Warning, Some(Emphasis::Bold))
            + " to the end of the variable name"@),
        caused_by,
    )
}

/// The hint of a mutable access: when the access goes through a parameter
/// (that is not a reference), possibly under type ascriptions, suggest
/// declaring that parameter `ref`. The receiver is shown as written; a
/// receiver that is not made of names, attributes and ascriptions gets no
/// hint.
pub open spec fn touch_mut_hint(expr: Expr) -> Option<Seq<char>> {
    match expr {
        Expr::Accessor(acc) => match root_obj_of(acc) {
            Some(obj) => match (var_info_of(obj), access_display_of(obj)) {
                (Some(vi), Some(shown)) => if vi.is_parameter && !t_of(obj).is_ref {
                    Some("add `ref` in the parameter definition of `"@ + shown + "`"@)
                } else {
                    None
                },
                _ => None,
            },
            None => None,
        },
        _ => None,
    }
}

/// A mutable object is accessed where side effects are not allowed; the
/// access itself is noted as invalid.
pub open spec fn touch_mut_view(errno: usize, loc: Location, expr: Expr, caused_by: Seq<char>) -> ErrorView {
    ErrorView {
        kind: ErrorKind::HasEffect,
        errno,
        loc,
        desc: "cannot access a mutable object (: "@ + t_of(expr).name + ") in a function"@,
        notes: seq!["invalid access here"@],
        hint: touch_mut_hint(expr),
        caused_by,
    }
}

/// The diagnostics of compile-time evaluation.
pub type EvalError = CompileError;

/// The diagnostics of ownership checking.
pub type OwnershipError = CompileError;

/// The address to which compiler bugs are reported, underlined.
pub open spec fn url_view() -> Seq<char> {
    styled_str_view("https://github.com/erg-lang/erg"@, Role::Accent, Some(Emphasis::Underline))
}

pub(crate) fn url() -> (s: String)
    ensures
        s@ == url_view(),
{
    styled_str("https://github.com/erg-lang/erg", Role::Accent, Some(Emphasis::Underline))
}

impl EffectError {
    pub fn has_effect(errno: usize, loc: Location, caused_by: String) -> (e: Self)
        ensures
            e@ == has_effect_view(errno, loc, caused_by@),
    {
        CompileError::new(
            errno,
            loc,
            ErrorKind::HasEffect,
            String::from_str("this expression causes a side-effect"),
            None,
            caused_by,
        )
    }

    pub fn constructor_destructor_error(errno: usize, loc: Location, caused_by: String) -> (e: Self)
        ensures
            e@ == constructor_destructor_view(errno, loc, caused_by@),
    {
        CompileError::new(
            errno,
            loc,
            ErrorKind::HasEffect,
            String::from_str(
                "the constructor and destructor of this object have side-effects, so they cannot be called inside a function",
            ),
            None,
            caused_by,
        )
    }

    pub fn proc_assign_error(errno: usize, loc: Location, caused_by: String) -> (e: Self)
        ensures
            e@ == proc_assign_view(errno, loc, caused_by@),
    {
        let mut hint = String::from_str("add ");
        let bang = styled_string("!", Role::Warning, Some(Emphasis::Bold));
        hint.append(bang.as_str());
        hint.append(" to the end of the variable name");
        CompileError::new(
            errno,
            loc,
            ErrorKind::HasEffect,
            String::from_str("cannot assign a procedure to a normal variable"),
            Some(hint),
            caused_by,
        )
    }

    pub fn touch_mut_error(errno: usize, loc: Location, expr: &Expr, caused_by: String) -> (e: Self)
        ensures
            e@ == touch_mut_view(errno, loc, *expr, caused_by@),
    {
        let hint = match expr {
            Expr::Accessor(acc) => match acc.root_obj() {
                Some(obj) => match (obj.var_info(), obj.access_display()) {
                    (Some(vi), Some(shown)) => {
                        if vi.is_parameter && !obj.t().is_ref {
                            let mut h = String::from_str(
                                "add `ref` in the parameter definition of `",
                            );
                            h.append(shown.as_str());
                            h.append("`");
                            Some(h)
                        } else {
                            None
                        }
                    },
                    _ => None,
                },
                None => None,
            },
            _ => None,
        };
        let t = expr.t();
        let mut desc = String::from_str("cannot access a mutable object (: ");
        desc.append(t.name.as_str());
        desc.append(") in a function");
        let notes = vec![String::from_str("invalid access here")];
        let e = CompileError { kind: ErrorKind::HasEffect, errno, loc, desc, notes, hint, caused_by };
        proof {
            assert(strings_view(e.notes@) =~= seq!["invalid access here"@]);
        }
        e
    }

}

impl CompileError {
    pub fn feature_error(errno: usize, loc: Location, name: &str, caused_by: String) -> (e: Self)
        ensures
            e@ == plain_error(
                errno,
                loc,
                ErrorKind::FeatureError,
                "this feature("@ + name@ + ") is not implemented yet"@,
                None,
                caused_by@,
            ),
    {
        let mut desc = String::from_str("this feature(");
        desc.append(name);
        desc.append(") is not implemented yet");
        CompileError::new(errno, loc, ErrorKind::FeatureError, desc, None, caused_by)
    }

    pub fn system_exit() -> (e: Self)
        ensures
            e@ == plain_error(
                0,
                Location::Unknown,
                ErrorKind::SystemExit,
                "system is exiting"@,
                None,
                Seq::empty(),
            ),
    {
        CompileError::new(
            0,
            Location::Unknown,
            ErrorKind::SystemExit,
            String::from_str("system is exiting"),
            None,
            String::new(),
        )
    }

    /// A bug of the compiler, raised in `fn_name` at `line`.
    pub fn compiler_bug(errno: usize, loc: Location, fn_name: &str, line: u32) -> (e: Self)
        ensures
            e@ == plain_error(
                errno,
                loc,
                ErrorKind::CompilerSystemError,
                "this is a bug of the Erg compiler, please report it to "@ + url_view()
                    + "\n\ncaused from: "@ + fn_name@ + ":"@ + decimal(line as nat),
                None,
                Seq::empty(),
            ),
    {
        let mut desc = String::from_str("this is a bug of the Erg compiler, please report it to ");
        let u = url();
        desc.append(u.as_str());
        desc.append("\n\ncaused from: ");
        desc.append(fn_name);
        desc.append(":");
        let l = decimal_string(line as usize);
        desc.append(l.as_str());
        CompileError::new(errno, loc, ErrorKind::CompilerSystemError, desc, None, String::new())
    }

    /// The stack of the code generator holds an unexpected number of
    /// elements at the end of block `block_id` (error number 0).
    pub fn stack_bug(loc: Location, stack_len: u32, block_id: usize, fn_name: &str) -> (e: Self)
        ensures
            e@ == plain_error(
                0,
                loc,
                ErrorKind::CompilerSystemError,
                "the number of elements in the stack is invalid (num of elems: "@ + decimal(
                    stack_len as nat,
                ) + ", block id: "@ + decimal(block_id as nat) + ")\n\nthis is a bug of the Erg compiler, please report it to "@
                    + url_view() + "\ncaused from: "@ + fn_name@,
                None,
                Seq::empty(),
            ),
    {
        let mut desc = String::from_str(
            "the number of elements in the stack is invalid (num of elems: ",
        );
        let n = decimal_string(stack_len as usize);
        desc.append(n.as_str());
        desc.append(", block id: ");
        let b = decimal_string(block_id);
        desc.append(b.as_str());
        desc.append(")\n\nthis is a bug of the Erg compiler, please report it to ");
        let u = url();
        desc.append(u.as_str());
        desc.append("\ncaused from: ");
        desc.append(fn_name);
        CompileError::new(0, loc, ErrorKind::CompilerSystemError, desc, None, String::new())
    }

}

impl OwnershipError {
    /// `name`, used at `name_loc`, was already moved at `moved_loc` (its
    /// first line is shown, 0 when it is unknown).
    pub fn move_error(
        errno: usize,
        name: &str,
        name_loc: Location,
        moved_loc: Location,
        caused_by: String,
    ) -> (e: Self)
        ensures
            e@ == plain_error(
                errno,
                name_loc,
                ErrorKind::MoveError,
                styled_string_view(name@, Role::Error, Some(Emphasis::Bold)) + " was moved in line "@
                    + decimal(
                    match moved_loc.spec_ln_begin() {
                        Some(l) => l as nat,
                        None => 0,
                    },
                ),
                None,
                caused_by@,
            ),
    {
        let mut desc = styled_string(name, Role::Error, Some(Emphasis::Bold));
        desc.append(" was moved in line ");
        let line: u32 = match moved_loc.ln_begin() {
            Some(l) => l,
            None => 0,
        };
        let l = decimal_string(line as usize);
        desc.append(l.as_str());
        CompileError::new(errno, name_loc, ErrorKind::MoveError, desc, None, caused_by)
    }

}

impl EvalError {
    /// The expression is not a constant expression.
    pub fn not_const_expr(errno: usize, loc: Location, caused_by: String) -> (e: Self)
        ensures
            e@ == plain_error(
                errno,
                loc,
                ErrorKind::NotConstExpr,
                "not a constant expression"@,
                None,
                caused_by@,
            ),
    {
        CompileError::new(
            errno,
            loc,
            ErrorKind::NotConstExpr,
            String::from_str("not a constant expression"),
            None,
            caused_by,
        )
    }

    /// The literal is malformed.
    pub fn invalid_literal(errno: usize, loc: Location, caused_by: String) -> (e: Self)
        ensures
            e@ == plain_error(errno, loc, ErrorKind::SyntaxError, "invalid literal"@, None, caused_by@),
    {
        CompileError::new(
            errno,
            loc,
            ErrorKind::SyntaxError,
            String::from_str("invalid literal"),
            None,
            caused_by,
        )
    }
}

/// The combined outcome of two checks: `Ok` only if both are, else the
/// errors of the left one followed by those of the right one.
pub open spec fn concat_outcome(
    l: Result<(), Seq<ErrorView>>,
    r: Result<(), Seq<ErrorView>>,
) -> Result<(), Seq<ErrorView>> {
    match (l, r) {
        (Ok(()), Ok(())) => Ok(()),
        (Ok(()), Err(r)) => Err(r),
        (Err(l), Ok(())) => Err(l),
        (Err(l), Err(r)) => Err(l + r),
    }
}

pub open spec fn outcome_view(r: Result<(), CompileErrors>) -> Result<(), Seq<ErrorView>> {
    match r {
        Ok(()) => Ok(()),
        Err(e) => Err(e@),
    }
}

/// Joins the outcomes of two checks.
pub fn concat_result(l: Result<(), CompileErrors>, r: Result<(), CompileErrors>) -> (res: Result<
    (),
    CompileErrors,
>)
    ensures
        outcome_view(res) == concat_outcome(outcome_view(l), outcome_view(r)),
{
    match (l, r) {
        (Ok(()), Ok(())) => Ok(()),
        (Ok(()), Err(r)) => Err(r),
        (Err(l), Ok(())) => Err(l),
        (Err(l), Err(r)) => {
            let mut l = l;
            l.extend(r);
            Err(l)
        },
    }
}

/// Joining outcomes has the successful outcome as identity on both sides
/// and is associative: the errors of several checks come out in the order
/// of the checks, however the joins are grouped.
pub proof fn lemma_concat_outcome_monoid(
    a: Result<(), Seq<ErrorView>>,
    b: Result<(), Seq<ErrorView>>,
    c: Result<(), Seq<ErrorView>>,
)
    ensures
        concat_outcome(Ok(()), a) == a,
        concat_outcome(a, Ok(())) == a,
        concat_outcome(concat_outcome(a, b), c) == concat_outcome(a, concat_outcome(b, c)),
{
    match a {
        Ok(u) => {
            assert(u == ());
        },
        Err(x) => {
            match b {
                Ok(_) => {},
                Err(y) => {
                    match c {
                        Ok(_) => {},
                        Err(z) => {
                            assert((x + y) + z =~= x + (y + z));
                        },
                    }
                },
            }
        },
    }
}

/// The readable name of the method of a unary operator is the operator in
/// backquotes.
#[verifier::spinoff_prover]
#[verifier::rlimit(40)]
pub proof fn lemma_unaryop_readable(op: Seq<char>)
    requires
        unaryop_dname(op) is Some,
    ensures
        readable(unaryop_dname(op)->Some_0) == "`"@ + op + "`"@,
{
    reveal_strlit("`");
    reveal_strlit("+");
    reveal_strlit("-");
    reveal_strlit("~");
    reveal_strlit("!");
    reveal_strlit("...");
    reveal_strlit("`+`");
    reveal_strlit("`-`");
    reveal_strlit("`~`");
    reveal_strlit("`!`");
    reveal_strlit("`...`");
    reveal_strlit("__pos__");
    reveal_strlit("__neg__");
    reveal_strlit("__invert__");
    reveal_strlit("__mutate__");
    reveal_strlit("__spread__");
    reveal_strlit("__add__");
    reveal_strlit("__sub__");
    reveal_strlit("__mul__");
    reveal_strlit("__div__");
    reveal_strlit("__floordiv__");
    reveal_strlit("__pow__");
    reveal_strlit("__mod__");
    reveal_strlit("__matmul__");
    reveal_strlit("__rng__");
    reveal_strlit("__lorng__");
    reveal_strlit("__rorng__");
    reveal_strlit("__orng__");
    reveal_strlit("__as__");
    reveal_strlit("__and__");
    reveal_strlit("__or__");
    reveal_strlit("__contains__");
    reveal_strlit("__subof__");
    reveal_strlit("__supof__");
    reveal_strlit("__is__!");
    reveal_strlit("__isnot__!");
    reveal_strlit("__eq__");
    reveal_strlit("__ne__");
    reveal_strlit("__lt__");
    reveal_strlit("__le__");
    reveal_strlit("__gt__");
    reveal_strlit("__ge__");
    reveal_strlit("__pos__");
    reveal_strlit("__neg__");
    reveal_strlit("__invert__");
    reveal_strlit("__mutate__");
    reveal_strlit("__spread__");
    reveal_strlit("__lshift__");
    reveal_strlit("__rshift__");
    if op == "+"@ {
        assert(readable("__pos__"@) == "`+`"@) by {
            assert("__pos__"@[2] != "__add__"@[2]);
            assert("__pos__"@ != "__add__"@);
            assert("__pos__"@[2] != "__sub__"@[2]);
            assert("__pos__"@ != "__sub__"@);
            assert("__pos__"@[2] != "__mul__"@[2]);
            assert("__pos__"@ != "__mul__"@);
            assert("__pos__"@[2] != "__div__"@[2]);
            assert("__pos__"@ != "__div__"@);
            assert("__pos__"@.len() != "__floordiv__"@.len());
            assert("__pos__"@ != "__floordiv__"@);
            assert("__pos__"@[4] != "__pow__"@[4]);
            assert("__pos__"@ != "__pow__"@);
            assert("__pos__"@[2] != "__mod__"@[2]);
            assert("__pos__"@ != "__mod__"@);
            assert("__pos__"@.len() != "__matmul__"@.len());
            assert("__pos__"@ != "__matmul__"@);
            assert("__pos__"@[2] != "__rng__"@[2]);
            assert("__pos__"@ != "__rng__"@);
            assert("__pos__"@.len() != "__lorng__"@.len());
            assert("__pos__"@ != "__lorng__"@);
            assert("__pos__"@.len() != "__rorng__"@.len());
            assert("__pos__"@ != "__rorng__"@);
            assert("__pos__"@.len() != "__orng__"@.len());
            assert("__pos__"@ != "__orng__"@);
            assert("__pos__"@.len() != "__as__"@.len());
            assert("__pos__"@ != "__as__"@);
            assert("__pos__"@[2] != "__and__"@[2]);
            assert("__pos__"@ != "__and__"@);
            assert("__pos__"@.len() != "__or__"@.len());
            assert("__pos__"@ != "__or__"@);
            assert("__pos__"@.len() != "__contains__"@.len());
            assert("__pos__"@ != "__contains__"@);
            assert("__pos__"@.len() != "__subof__"@.len());
            assert("__pos__"@ != "__subof__"@);
            assert("__pos__"@.len() != "__supof__"@.len());
            assert("__pos__"@ != "__supof__"@);
            assert("__pos__"@[2] != "__is__!"@[2]);
            assert("__pos__"@ != "__is__!"@);
            assert("__pos__"@.len() != "__isnot__!"@.len());
            assert("__pos__"@ != "__isnot__!"@);
            assert("__pos__"@.len() != "__eq__"@.len());
            assert("__pos__"@ != "__eq__"@);
            assert("__pos__"@.len() != "__ne__"@.len());
            assert("__pos__"@ != "__ne__"@);
            assert("__pos__"@.len() != "__lt__"@.len());
            assert("__pos__"@ != "__lt__"@);
            assert("__pos__"@.len() != "__le__"@.len());
            assert("__pos__"@ != "__le__"@);
            assert("__pos__"@.len() != "__gt__"@.len());
            assert("__pos__"@ != "__gt__"@);
            assert("__pos__"@.len() != "__ge__"@.len());
            assert("__pos__"@ != "__ge__"@);
        }
        assert("`+`"@ =~= "`"@ + op + "`"@);
    } else if op == "-"@ {
        assert(readable("__neg__"@) == "`-`"@) by {
            assert("__neg__"@[2] != "__add__"@[2]);
            assert("__neg__"@ != "__add__"@);
            assert("__neg__"@[2] != "__sub__"@[2]);
            assert("__neg__"@ != "__sub__"@);
            assert("__neg__"@[2] != "__mul__"@[2]);
            assert("__neg__"@ != "__mul__"@);
            assert("__neg__"@[2] != "__div__"@[2]);
            assert("__neg__"@ != "__div__"@);
            assert("__neg__"@.len() != "__floordiv__"@.len());
            assert("__neg__"@ != "__floordiv__"@);
            assert("__neg__"@[2] != "__pow__"@[2]);
            assert("__neg__"@ != "__pow__"@);
            assert("__neg__"@[2] != "__mod__"@[2]);
            assert("__neg__"@ != "__mod__"@);
            assert("__neg__"@.len() != "__matmul__"@.len());
            assert("__neg__"@ != "__matmul__"@);
            assert("__neg__"@[2] != "__rng__"@[2]);
            assert("__neg__"@ != "__rng__"@);
            assert("__neg__"@.len() != "__lorng__"@.len());
            assert("__neg__"@ != "__lorng__"@);
            assert("__neg__"@.len() != "__rorng__"@.len());
            assert("__neg__"@ != "__rorng__"@);
            assert("__neg__"@.len() != "__orng__"@.len());
            assert("__neg__"@ != "__orng__"@);
            assert("__neg__"@.len() != "__as__"@.len());
            assert("__neg__"@ != "__as__"@);
            assert("__neg__"@[2] != "__and__"@[2]);
            assert("__neg__"@ != "__and__"@);
            assert("__neg__"@.len() != "__or__"@.len());
            assert("__neg__"@ != "__or__"@);
            assert("__neg__"@.len() != "__contains__"@.len());
            assert("__neg__"@ != "__contains__"@);
            assert("__neg__"@.len() != "__subof__"@.len());
            assert("__neg__"@ != "__subof__"@);
            assert("__neg__"@.len() != "__supof__"@.len());
            assert("__neg__"@ != "__supof__"@);
            assert("__neg__"@[2] != "__is__!"@[2]);
            assert("__neg__"@ != "__is__!"@);
            assert("__neg__"@.len() != "__isnot__!"@.len());
            assert("__neg__"@ != "__isnot__!"@);
            assert("__neg__"@.len() != "__eq__"@.len());
            assert("__neg__"@ != "__eq__"@);
            assert("__neg__"@.len() != "__ne__"@.len());
            assert("__neg__"@ != "__ne__"@);
            assert("__neg__"@.len() != "__lt__"@.len());
            assert("__neg__"@ != "__lt__"@);
            assert("__neg__"@.len() != "__le__"@.len());
            assert("__neg__"@ != "__le__"@);
            assert("__neg__"@.len() != "__gt__"@.len());
            assert("__neg__"@ != "__gt__"@);
            assert("__neg__"@.len() != "__ge__"@.len());
            assert("__neg__"@ != "__ge__"@);
            assert("__neg__"@[2] != "__pos__"@[2]);
            assert("__neg__"@ != "__pos__"@);
        }
        assert("`-`"@ =~= "`"@ + op + "`"@);
    } else if op == "~"@ {
        assert(readable("__invert__"@) == "`~`"@) by {
            assert("__invert__"@.len() != "__add__"@.len());
            assert("__invert__"@ != "__add__"@);
            assert("__invert__"@.len() != "__sub__"@.len());
            assert("__invert__"@ != "__sub__"@);
            assert("__invert__"@.len() != "__mul__"@.len());
            assert("__invert__"@ != "__mul__"@);
            assert("__invert__"@.len() != "__div__"@.len());
            assert("__invert__"@ != "__div__"@);
            assert("__invert__"@.len() != "__floordiv__"@.len());
            assert("__invert__"@ != "__floordiv__"@);
            assert("__invert__"@.len() != "__pow__"@.len());
            assert("__invert__"@ != "__pow__"@);
            assert("__invert__"@.len() != "__mod__"@.len());
            assert("__invert__"@ != "__mod__"@);
            assert("__invert__"@[2] != "__matmul__"@[2]);
            assert("__invert__"@ != "__matmul__"@);
            assert("__invert__"@.len() != "__rng__"@.len());
            assert("__invert__"@ != "__rng__"@);
            assert("__invert__"@.len() != "__lorng__"@.len());
            assert("__invert__"@ != "__lorng__"@);
            assert("__invert__"@.len() != "__rorng__"@.len());
            assert("__invert__"@ != "__rorng__"@);
            assert("__invert__"@.len() != "__orng__"@.len());
            assert("__invert__"@ != "__orng__"@);
            assert("__invert__"@.len() != "__as__"@.len());
            assert("__invert__"@ != "__as__"@);
            assert("__invert__"@.len() != "__and__"@.len());
            assert("__invert__"@ != "__and__"@);
            assert("__invert__"@.len() != "__or__"@.len());
            assert("__invert__"@ != "__or__"@);
            assert("__invert__"@.len() != "__contains__"@.len());
            assert("__invert__"@ != "__contains__"@);
            assert("__invert__"@.len() != "__subof__"@.len());
            assert("__invert__"@ != "__subof__"@);
            assert("__invert__"@.len() != "__supof__"@.len());
            assert("__invert__"@ != "__supof__"@);
            assert("__invert__"@.len() != "__is__!"@.len());
            assert("__invert__"@ != "__is__!"@);
            assert("__invert__"@[3] != "__isnot__!"@[3]);
            assert("__invert__"@ != "__isnot__!"@);
            assert("__invert__"@.len() != "__eq__"@.len());
            assert("__invert__"@ != "__eq__"@);
            assert("__invert__"@.len() != "__ne__"@.len());
            assert("__invert__"@ != "__ne__"@);
            assert("__invert__"@.len() != "__lt__"@.len());
            assert("__invert__"@ != "__lt__"@);
            assert("__invert__"@.len() != "__le__"@.len());
            assert("__invert__"@ != "__le__"@);
            assert("__invert__"@.len() != "__gt__"@.len());
            assert("__invert__"@ != "__gt__"@);
            assert("__invert__"@.len() != "__ge__"@.len());
            assert("__invert__"@ != "__ge__"@);
            assert("__invert__"@.len() != "__pos__"@.len());
            assert("__invert__"@ != "__pos__"@);
            assert("__invert__"@.len() != "__neg__"@.len());
            assert("__invert__"@ != "__neg__"@);
        }
        assert("`~`"@ =~= "`"@ + op + "`"@);
    } else if op == "!"@ {
        assert(readable("__mutate__"@) == "`!`"@) by {
            assert("__mutate__"@.len() != "__add__"@.len());
            assert("__mutate__"@ != "__add__"@);
            assert("__mutate__"@.len() != "__sub__"@.len());
            assert("__mutate__"@ != "__sub__"@);
            assert("__mutate__"@.len() != "__mul__"@.len());
            assert("__mutate__"@ != "__mul__"@);
            assert("__mutate__"@.len() != "__div__"@.len());
            assert("__mutate__"@ != "__div__"@);
            assert("__mutate__"@.len() != "__floordiv__"@.len());
            assert("__mutate__"@ != "__floordiv__"@);
            assert("__mutate__"@.len() != "__pow__"@.len());
            assert("__mutate__"@ != "__pow__"@);
            assert("__mutate__"@.len() != "__mod__"@.len());
            assert("__mutate__"@ != "__mod__"@);
            assert("__mutate__"@[3] != "__matmul__"@[3]);
            assert("__mutate__"@ != "__matmul__"@);
            assert("__mutate__"@.len() != "__rng__"@.len());
            assert("__mutate__"@ != "__rng__"@);
            assert("__mutate__"@.len() != "__lorng__"@.len());
            assert("__mutate__"@ != "__lorng__"@);
            assert("__mutate__"@.len() != "__rorng__"@.len());
            assert("__mutate__"@ != "__rorng__"@);
            assert("__mutate__"@.len() != "__orng__"@.len());
            assert("__mutate__"@ != "__orng__"@);
            assert("__mutate__"@.len() != "__as__"@.len());
            assert("__mutate__"@ != "__as__"@);
            assert("__mutate__"@.len() != "__and__"@.len());
            assert("__mutate__"@ != "__and__"@);
            assert("__mutate__"@.len() != "__or__"@.len());
            assert("__mutate__"@ != "__or__"@);
            assert("__mutate__"@.len() != "__contains__"@.len());
            assert("__mutate__"@ != "__contains__"@);
            assert("__mutate__"@.len() != "__subof__"@.len());
            assert("__mutate__"@ != "__subof__"@);
            assert("__mutate__"@.len() != "__supof__"@.len());
            assert("__mutate__"@ != "__supof__"@);
            assert("__mutate__"@.len() != "__is__!"@.len());
            assert("__mutate__"@ != "__is__!"@);
            assert("__mutate__"@[2] != "__isnot__!"@[2]);
            assert("__mutate__"@ != "__isnot__!"@);
            assert("__mutate__"@.len() != "__eq__"@.len());
            assert("__mutate__"@ != "__eq__"@);
            assert("__mutate__"@.len() != "__ne__"@.len());
            assert("__mutate__"@ != "__ne__"@);
            assert("__mutate__"@.len() != "__lt__"@.len());
            assert("__mutate__"@ != "__lt__"@);
            assert("__mutate__"@.len() != "__le__"@.len());
            assert("__mutate__"@ != "__le__"@);
            assert("__mutate__"@.len() != "__gt__"@.len());
            assert("__mutate__"@ != "__gt__"@);
            assert("__mutate__"@.len() != "__ge__"@.len());
            assert("__mutate__"@ != "__ge__"@);
            assert("__mutate__"@.len() != "__pos__"@.len());
            assert("__mutate__"@ != "__pos__"@);
            assert("__mutate__"@.len() != "__neg__"@.len());
            assert("__mutate__"@ != "__neg__"@);
            assert("__mutate__"@[2] != "__invert__"@[2]);
            assert("__mutate__"@ != "__invert__"@);
        }
        assert("`!`"@ =~= "`"@ + op + "`"@);
    } else {
        assert(readable("__spread__"@) == "`...`"@) by {
            assert("__spread__"@.len() != "__add__"@.len());
            assert("__spread__"@ != "__add__"@);
            assert("__spread__"@.len() != "__sub__"@.len());
            assert("__spread__"@ != "__sub__"@);
            assert("__spread__"@.len() != "__mul__"@.len());
            assert("__spread__"@ != "__mul__"@);
            assert("__spread__"@.len() != "__div__"@.len());
            assert("__spread__"@ != "__div__"@);
            assert("__spread__"@.len() != "__floordiv__"@.len());
            assert("__spread__"@ != "__floordiv__"@);
            assert("__spread__"@.len() != "__pow__"@.len());
            assert("__spread__"@ != "__pow__"@);
            assert("__spread__"@.len() != "__mod__"@.len());
            assert("__spread__"@ != "__mod__"@);
            assert("__spread__"@[2] != "__matmul__"@[2]);
            assert("__spread__"@ != "__matmul__"@);
            assert("__spread__"@.len() != "__rng__"@.len());
            assert("__spread__"@ != "__rng__"@);
            assert("__spread__"@.len() != "__lorng__"@.len());
            assert("__spread__"@ != "__lorng__"@);
            assert("__spread__"@.len() != "__rorng__"@.len());
            assert("__spread__"@ != "__rorng__"@);
            assert("__spread__"@.len() != "__orng__"@.len());
            assert("__spread__"@ != "__orng__"@);
            assert("__spread__"@.len() != "__as__"@.len());
            assert("__spread__"@ != "__as__"@);
            assert("__spread__"@.len() != "__and__"@.len());
            assert("__spread__"@ != "__and__"@);
            assert("__spread__"@.len() != "__or__"@.len());
            assert("__spread__"@ != "__or__"@);
            assert("__spread__"@.len() != "__contains__"@.len());
            assert("__spread__"@ != "__contains__"@);
            assert("__spread__"@.len() != "__subof__"@.len());
            assert("__spread__"@ != "__subof__"@);
            assert("__spread__"@.len() != "__supof__"@.len());
            assert("__spread__"@ != "__supof__"@);
            assert("__spread__"@.len() != "__is__!"@.len());
            assert("__spread__"@ != "__is__!"@);
            assert("__spread__"@[2] != "__isnot__!"@[2]);
            assert("__spread__"@ != "__isnot__!"@);
            assert("__spread__"@.len() != "__eq__"@.len());
            assert("__spread__"@ != "__eq__"@);
            assert("__spread__"@.len() != "__ne__"@.len());
            assert("__spread__"@ != "__ne__"@);
            assert("__spread__"@.len() != "__lt__"@.len());
            assert("__spread__"@ != "__lt__"@);
            assert("__spread__"@.len() != "__le__"@.len());
            assert("__spread__"@ != "__le__"@);
            assert("__spread__"@.len() != "__gt__"@.len());
            assert("__spread__"@ != "__gt__"@);
            assert("__spread__"@.len() != "__ge__"@.len());
            assert("__spread__"@ != "__ge__"@);
            assert("__spread__"@.len() != "__pos__"@.len());
            assert("__spread__"@ != "__pos__"@);
            assert("__spread__"@.len() != "__neg__"@.len());
            assert("__spread__"@ != "__neg__"@);
            assert("__spread__"@[2] != "__invert__"@[2]);
            assert("__spread__"@ != "__invert__"@);
            assert("__spread__"@[2] != "__mutate__"@[2]);
            assert("__spread__"@ != "__mutate__"@);
        }
        assert("`...`"@ =~= "`"@ + op + "`"@);
    }
}


} // verus!
