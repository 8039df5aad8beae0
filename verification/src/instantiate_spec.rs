//! Helpers of the instantiation of type specifications: operator kinds of
//! type-level expressions and the kinds of parameters.
use vstd::prelude::*;

use crate::context::DefaultInfo;
use crate::token::TokenKind;
use crate::ty::TypeInfo;

verus! {

/// Operators of type-level (constant) expressions.
#[derive(Debug, Clone, Copy, PartialEq, Eq, Structural)]
pub enum OpKind {
    Add,
    Sub,
    Mul,
    Div,
    FloorDiv,
    Mod,
    Pow,
    Pos,
    Neg,
    Invert,
    Eq,
    Ne,
    Lt,
    Le,
    Gt,
    Ge,
    And,
    Or,
    BitAnd,
    BitOr,
    BitXor,
    Shl,
    Shr,
}

/// The type-level operator a token stands for, if any.
pub open spec fn op_kind_of(kind: TokenKind) -> Option<OpKind> {
    match kind {
        TokenKind::Plus => Some(OpKind::Add),
        TokenKind::Minus => Some(OpKind::Sub),
        TokenKind::Star => Some(OpKind::Mul),
        TokenKind::Slash => Some(OpKind::Div),
        TokenKind::FloorDiv => Some(OpKind::FloorDiv),
        TokenKind::Mod => Some(OpKind::Mod),
        TokenKind::Pow => Some(OpKind::Pow),
        TokenKind::PrePlus => Some(OpKind::Pos),
        TokenKind::PreMinus => Some(OpKind::Neg),
        TokenKind::PreBitNot => Some(OpKind::Invert),
        TokenKind::DblEq => Some(OpKind::Eq),
        TokenKind::NotEq => Some(OpKind::Ne),
        TokenKind::Less => Some(OpKind::Lt),
        TokenKind::LessEq => Some(OpKind::Le),
        TokenKind::Gre => Some(OpKind::Gt),
        TokenKind::GreEq => Some(OpKind::Ge),
        TokenKind::AndOp => Some(OpKind::And),
        TokenKind::OrOp => Some(OpKind::Or),
        TokenKind::BitAnd => Some(OpKind::BitAnd),
        TokenKind::BitOr => Some(OpKind::BitOr),
        TokenKind::BitXor => Some(OpKind::BitXor),
        TokenKind::Shl => Some(OpKind::Shl),
        TokenKind::Shr => Some(OpKind::Shr),
        _ => None,
    }
}

/// Maps an operator token to the operator of type-level expressions.
pub fn token_kind_to_op_kind(kind: TokenKind) -> (r: Option<OpKind>)
    ensures
        r == op_kind_of(kind),
{
    match kind {
        TokenKind::Plus => Some(OpKind::Add),
        TokenKind::Minus => Some(OpKind::Sub),
        TokenKind::Star => Some(OpKind::Mul),
        TokenKind::Slash => Some(OpKind::Div),
        TokenKind::FloorDiv => Some(OpKind::FloorDiv),
        TokenKind::Mod => Some(OpKind::Mod),
        TokenKind::Pow => Some(OpKind::Pow),
        TokenKind::PrePlus => Some(OpKind::Pos),
        TokenKind::PreMinus => Some(OpKind::Neg),
        TokenKind::PreBitNot => Some(OpKind::Invert),
        TokenKind::DblEq => Some(OpKind::Eq),
        TokenKind::NotEq => Some(OpKind::Ne),
        TokenKind::Less => Some(OpKind::Lt),
        TokenKind::LessEq => Some(OpKind::Le),
        TokenKind::Gre => Some(OpKind::Gt),
        TokenKind::GreEq => Some(OpKind::Ge),
        TokenKind::AndOp => Some(OpKind::And),
        TokenKind::OrOp => Some(OpKind::Or),
        TokenKind::BitAnd => Some(OpKind::BitAnd),
        TokenKind::BitOr => Some(OpKind::BitOr),
        TokenKind::BitXor => Some(OpKind::BitXor),
        TokenKind::Shl => Some(OpKind::Shl),
        TokenKind::Shr => Some(OpKind::Shr),
        _ => None,
    }
}

/// The kind of a parameter in a subroutine type specification.
#[derive(Debug)]
pub enum ParamKind {
    NonDefault,
    /// The type of the default value.
    Default(TypeInfo),
    VarParams,
    KwVarParams,
}

impl ParamKind {
    pub fn is_var_params(&self) -> (b: bool)
        ensures
            b == (*self is VarParams),
    {
        matches!(self, ParamKind::VarParams)
    }

    pub fn is_kw_var_params(&self) -> (b: bool)
        ensures
            b == (*self is KwVarParams),
    {
        matches!(self, ParamKind::KwVarParams)
    }

    pub fn is_default(&self) -> (b: bool)
        ensures
            b == (*self is Default),
    {
        matches!(self, ParamKind::Default(_))
    }

    /// `WithDefault` exactly for parameters with a default value.
    pub fn default_info(&self) -> (d: DefaultInfo)
        ensures
            d == (if *self is Default {
                DefaultInfo::WithDefault
            } else {
                DefaultInfo::NonDefault
            }),
    {
        match self {
            ParamKind::Default(_) => DefaultInfo::WithDefault,
            _ => DefaultInfo::NonDefault,
        }
    }
}

} // verus!
