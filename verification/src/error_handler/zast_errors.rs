//! The diagnostic taxonomy of both phases.

use vstd::prelude::*;

use crate::tokens::{Span, TokenKind};

verus! {

/// One expected item of an `ExpectedToken` diagnostic: either a concrete
/// token kind, or a named concept such as "type annotation" that never
/// matches by itself and exists only for clearer message text.
#[derive(Debug)]
pub enum Expected {
    Token(TokenKind),
    Concept(&'static str),
}

/// The spec-level value of an [`Expected`].
pub enum ExpectedV {
    Token(TokenKind),
    Concept(Seq<char>),
}

impl View for Expected {
    type V = ExpectedV;

    open spec fn view(&self) -> ExpectedV {
        match self {
            Expected::Token(k) => ExpectedV::Token(*k),
            Expected::Concept(s) => ExpectedV::Concept(s@),
        }
    }
}

/// A diagnostic of the front end, tagged with the source range it is
/// about.
#[derive(Debug)]
pub enum ZastError {
    /// Parse: no prefix rule exists for the token found.
    UnexpectedToken { span: Span, token_kind: TokenKind },
    /// Parse: the token found matches none of the expected items.
    ExpectedToken { span: Span, expected_tokens: Vec<Expected>, found_token: TokenKind },
    /// Scan, reported through the same channel: an unclassifiable lexeme.
    IllegalToken { span: Span, token_lexeme: String },
    /// Analysis: a name already bound in the same scope, citing the
    /// original declaration.
    VariableRedeclaration { span: Span, variable_name: String, original_span: Span },
    /// Analysis: a function name already bound in the same scope, citing
    /// the original declaration.
    FunctionRedeclaration { span: Span, fn_name: String, original_span: Span },
}

/// The spec-level value of a [`ZastError`].
pub enum ZastErrorV {
    UnexpectedToken { span: Span, token_kind: TokenKind },
    ExpectedToken { span: Span, expected_tokens: Seq<ExpectedV>, found_token: TokenKind },
    IllegalToken { span: Span, token_lexeme: Seq<char> },
    VariableRedeclaration { span: Span, variable_name: Seq<char>, original_span: Span },
    FunctionRedeclaration { span: Span, fn_name: Seq<char>, original_span: Span },
}

impl View for ZastError {
    type V = ZastErrorV;

    open spec fn view(&self) -> ZastErrorV {
        match self {
            ZastError::UnexpectedToken { span, token_kind } => ZastErrorV::UnexpectedToken {
                span: *span,
                token_kind: *token_kind,
            },
            ZastError::ExpectedToken { span, expected_tokens, found_token } => {
                ZastErrorV::ExpectedToken {
                    span: *span,
                    expected_tokens: expected_tokens@.map_values(|e: Expected| e@),
                    found_token: *found_token,
                }
            },
            ZastError::IllegalToken { span, token_lexeme } => ZastErrorV::IllegalToken {
                span: *span,
                token_lexeme: token_lexeme@,
            },
            ZastError::VariableRedeclaration { span, variable_name, original_span } => {
                ZastErrorV::VariableRedeclaration {
                    span: *span,
                    variable_name: variable_name@,
                    original_span: *original_span,
                }
            },
            ZastError::FunctionRedeclaration { span, fn_name, original_span } => {
                ZastErrorV::FunctionRedeclaration {
                    span: *span,
                    fn_name: fn_name@,
                    original_span: *original_span,
                }
            },
        }
    }
}

/// The source range a spec-level diagnostic is about.
pub open spec fn spec_error_span(e: ZastErrorV) -> Span {
    match e {
        ZastErrorV::UnexpectedToken { span, .. } => span,
        ZastErrorV::ExpectedToken { span, .. } => span,
        ZastErrorV::IllegalToken { span, .. } => span,
        ZastErrorV::VariableRedeclaration { span, .. } => span,
        ZastErrorV::FunctionRedeclaration { span, .. } => span,
    }
}

} // verus!
