//! The return type position of a function signature.

use vstd::prelude::*;

use crate::types::annotated_type::{AnnotatedType, AnnotatedTypeV};

verus! {

/// A syntactic return type: `void`, or an ordinary type annotation.
#[derive(Debug, PartialEq, Eq)]
pub enum ReturnType {
    Void,
    Type(AnnotatedType),
}

/// The spec-level value of a [`ReturnType`].
pub enum ReturnTypeV {
    Void,
    Type(AnnotatedTypeV),
}

impl Clone for ReturnType {
    /// A clone is spec-equal to the original.
    fn clone(&self) -> (r: Self)
        ensures
            r@ == self@,
    {
        match self {
            ReturnType::Void => ReturnType::Void,
            ReturnType::Type(t) => ReturnType::Type(t.clone()),
        }
    }
}

impl View for ReturnType {
    type V = ReturnTypeV;

    open spec fn view(&self) -> ReturnTypeV {
        match self {
            ReturnType::Void => ReturnTypeV::Void,
            ReturnType::Type(t) => ReturnTypeV::Type(t@),
        }
    }
}

} // verus!
