//! Operand values of the lowering stub. A float value carries its raw
//! source text, as the front end's literals do.

use vstd::prelude::*;

verus! {

/// An operand of an instruction.
#[derive(Debug)]
pub enum ZastIRValue {
    Int(i64),
    Float(String),
    Bool(bool),
    Reference(String),
    Temporary(usize),
    Null,
}

/// The spec-level value of a [`ZastIRValue`].
pub enum ZastIRValueV {
    Int(i64),
    Float(Seq<char>),
    Bool(bool),
    Reference(Seq<char>),
    Temporary(usize),
    Null,
}

impl View for ZastIRValue {
    type V = ZastIRValueV;

    open spec fn view(&self) -> ZastIRValueV {
        match self {
            ZastIRValue::Int(i) => ZastIRValueV::Int(*i),
            ZastIRValue::Float(s) => ZastIRValueV::Float(s@),
            ZastIRValue::Bool(b) => ZastIRValueV::Bool(*b),
            ZastIRValue::Reference(s) => ZastIRValueV::Reference(s@),
            ZastIRValue::Temporary(t) => ZastIRValueV::Temporary(*t),
            ZastIRValue::Null => ZastIRValueV::Null,
        }
    }
}

} // verus!
