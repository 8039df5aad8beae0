//! Tokens of the lexer, as the checkers read them: a kind and a text.
use vstd::prelude::*;

use crate::strutil::ends_with_char;

verus! {

/// The kinds of tokens the Erg lexer produces.
#[derive(Debug, Clone, Copy, PartialEq, Eq, Structural)]
pub enum TokenKind {
    Symbol,
    NatLit,
    IntLit,
    BinLit,
    OctLit,
    HexLit,
    RatioLit,
    BoolLit,
    StrLit,
    StrInterpLeft,
    StrInterpMid,
    StrInterpRight,
    NoneLit,
    EllipsisLit,
    InfLit,
    DocComment,
    PrePlus,
    PreMinus,
    PreBitNot,
    Mutate,
    PreStar,
    PreDblStar,
    Try,
    Plus,
    Minus,
    Star,
    Slash,
    FloorDiv,
    Pow,
    Mod,
    Closed,
    RightOpen,
    LeftOpen,
    Open,
    BitAnd,
    BitOr,
    BitXor,
    Shl,
    Shr,
    Less,
    Gre,
    LessEq,
    GreEq,
    DblEq,
    NotEq,
    InOp,
    NotInOp,
    ContainsOp,
    SubOp,
    IsOp,
    IsNotOp,
    AndOp,
    OrOp,
    RefOp,
    RefMutOp,
    Assign,
    Inclusion,
    Walrus,
    FuncArrow,
    ProcArrow,
    LParen,
    RParen,
    LSqBr,
    RSqBr,
    LBrace,
    RBrace,
    Indent,
    Dedent,
    Dot,
    Pipe,
    Colon,
    DblColon,
    SupertypeOf,
    SubtypeOf,
    As,
    Comma,
    Caret,
    Amper,
    AtSign,
    VBar,
    UBar,
    Newline,
    Semi,
    Illegal,
    BOF,
    EOF,
}

/// A token: its kind and its source text.
#[derive(Debug)]
pub struct Token {
    pub kind: TokenKind,
    pub content: String,
}

impl Clone for Token {
    fn clone(&self) -> (t: Self)
        ensures
            t == *self,
    {
        Token { kind: self.kind, content: self.content.clone() }
    }
}

impl Token {
    pub fn new(kind: TokenKind, content: String) -> (t: Self)
        ensures
            t.kind == kind,
            t.content == content,
    {
        Token { kind, content }
    }

    pub fn from_str(kind: TokenKind, content: &str) -> (t: Self)
        ensures
            t.kind == kind,
            t.content@ == content@,
    {
        Token { kind, content: String::from_str(content) }
    }

    pub fn is(&self, kind: TokenKind) -> (b: bool)
        ensures
            b == (self.kind == kind),
    {
        self.kind == kind
    }

    /// Number literals, including `Inf`.
    pub fn is_number(&self) -> (b: bool)
        ensures
            b == (self.kind == TokenKind::NatLit || self.kind == TokenKind::IntLit || self.kind
                == TokenKind::BinLit || self.kind == TokenKind::OctLit || self.kind
                == TokenKind::HexLit || self.kind == TokenKind::RatioLit || self.kind
                == TokenKind::InfLit),
    {
        matches!(
            self.kind,
            TokenKind::NatLit | TokenKind::IntLit | TokenKind::BinLit | TokenKind::OctLit
                | TokenKind::HexLit | TokenKind::RatioLit | TokenKind::InfLit
        )
    }

    /// String literals and doc comments.
    pub fn is_str(&self) -> (b: bool)
        ensures
            b == (self.kind == TokenKind::StrLit || self.kind == TokenKind::DocComment),
    {
        matches!(self.kind, TokenKind::StrLit | TokenKind::DocComment)
    }

    pub fn inspect(&self) -> (s: &String)
        ensures
            *s == self.content,
    {
        &self.content
    }

    /// The text ends with `!`.
    pub fn is_procedural(&self) -> (b: bool)
        ensures
            b == (self.content@.len() > 0 && self.content@.last() == '!'),
    {
        ends_with_char(self.content.as_str(), '!')
    }
}

} // verus!
