//! Binding powers of the expression grammar: a pure map from token kind
//! to precedence level. A kind without an entry cannot continue an
//! expression, which is what lets statement terminators and block
//! delimiters stop expression parsing safely.

use vstd::prelude::*;

use crate::tokens::TokenKind;

verus! {

/// Precedence levels, low to high. Only the additive and multiplicative
/// operators and the grouping parenthesis are bound in the table;
/// every other kind has effective precedence zero.
#[derive(Debug, Clone, Copy, PartialEq, Eq, Structural)]
pub enum Precedence {
    Default,
    Assignment,
    Ternary,
    LogicalOr,
    LogicalAnd,
    Equals,
    Comparison,
    Additive,
    Multiplicative,
    Unary,
    Exponent,
    Call,
    Grouping,
}

/// The numeric rank of a precedence level, low to high.
pub open spec fn spec_prec_value(p: Precedence) -> u8 {
    match p {
        Precedence::Default => 0,
        Precedence::Assignment => 1,
        Precedence::Ternary => 2,
        Precedence::LogicalOr => 3,
        Precedence::LogicalAnd => 4,
        Precedence::Equals => 5,
        Precedence::Comparison => 6,
        Precedence::Additive => 7,
        Precedence::Multiplicative => 8,
        Precedence::Unary => 9,
        Precedence::Exponent => 10,
        Precedence::Call => 11,
        Precedence::Grouping => 12,
    }
}

/// The table entry of a token kind, if it has one.
pub open spec fn spec_precedence_of(token_kind: TokenKind) -> Option<Precedence> {
    match token_kind {
        TokenKind::Plus | TokenKind::Minus => Some(Precedence::Additive),
        TokenKind::Multiply | TokenKind::Divide => Some(Precedence::Multiplicative),
        TokenKind::LeftParenthesis => Some(Precedence::Grouping),
        _ => None,
    }
}

/// The effective binding power of a token kind: its table entry's rank,
/// or zero when it has none.
pub open spec fn spec_token_prec(token_kind: TokenKind) -> u8 {
    match spec_precedence_of(token_kind) {
        Some(p) => spec_prec_value(p),
        None => 0,
    }
}

impl Precedence {
    /// The numeric rank of this level.
    pub fn value(self) -> (r: u8)
        ensures
            r == spec_prec_value(self),
    {
        match self {
            Precedence::Default => 0,
            Precedence::Assignment => 1,
            Precedence::Ternary => 2,
            Precedence::LogicalOr => 3,
            Precedence::LogicalAnd => 4,
            Precedence::Equals => 5,
            Precedence::Comparison => 6,
            Precedence::Additive => 7,
            Precedence::Multiplicative => 8,
            Precedence::Unary => 9,
            Precedence::Exponent => 10,
            Precedence::Call => 11,
            Precedence::Grouping => 12,
        }
    }

    /// Looks a token kind up in the table.
    pub fn get_precedence(token_kind: TokenKind) -> (r: Option<Precedence>)
        ensures
            r == spec_precedence_of(token_kind),
    {
        match token_kind {
            TokenKind::Plus | TokenKind::Minus => Some(Precedence::Additive),
            TokenKind::Multiply | TokenKind::Divide => Some(Precedence::Multiplicative),
            TokenKind::LeftParenthesis => Some(Precedence::Grouping),
            _ => None,
        }
    }
}

} // verus!
