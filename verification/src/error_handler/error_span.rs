//! Reading the source range back out of a diagnostic.

use vstd::prelude::*;

use crate::error_handler::zast_errors::{spec_error_span, ZastError};
use crate::tokens::Span;

verus! {

impl ZastError {
    /// The source range this diagnostic is about.
    pub fn get_span(&self) -> (r: Span)
        ensures
            r == spec_error_span(self@),
    {
        match self {
            ZastError::UnexpectedToken { span, .. } => *span,
            ZastError::VariableRedeclaration { span, .. } => *span,
            ZastError::FunctionRedeclaration { span, .. } => *span,
            ZastError::ExpectedToken { span, .. } => *span,
            ZastError::IllegalToken { span, .. } => *span,
        }
    }
}

} // verus!
