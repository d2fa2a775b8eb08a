//! Instructions of the lowering stub.

use vstd::prelude::*;

use crate::types::{ValueType, ValueTypeV};
use crate::zast_ir::ir_values::{ZastIRValue, ZastIRValueV};

verus! {

/// One instruction.
#[derive(Debug)]
pub enum ZastIRInstruction {
    /// A variable declaration.
    Declare { name: String, val_type: ValueType, value: ZastIRValue, mutable: bool },
    /// An assignment.
    Assign { name: String, value: ZastIRValue },
    /// A binary operation; it always produces a temporary.
    BinaryOp {
        dest: usize,
        op: BinaryOp,
        left: ZastIRValue,
        right: ZastIRValue,
        val_type: ValueType,
    },
    /// A unary operation.
    UnaryOp { dest: usize, op: UnaryOp, operand: ZastIRValue, val_type: ValueType },
    /// A function declaration.
    FunctionDecl {
        name: String,
        params: Vec<(String, ValueType)>,
        return_type: ValueType,
        body: Vec<ZastIRInstruction>,
    },
    /// A function call; `dest` is empty when the return is void.
    Call { dest: Option<usize>, name: String, args: Vec<ZastIRValue> },
    /// A return.
    Return(Option<ZastIRValue>),
}

/// The spec-level value of a [`ZastIRInstruction`].
pub enum ZastIRInstructionV {
    Declare { name: Seq<char>, val_type: ValueTypeV, value: ZastIRValueV, mutable: bool },
    Assign { name: Seq<char>, value: ZastIRValueV },
    BinaryOp {
        dest: usize,
        op: BinaryOp,
        left: ZastIRValueV,
        right: ZastIRValueV,
        val_type: ValueTypeV,
    },
    UnaryOp { dest: usize, op: UnaryOp, operand: ZastIRValueV, val_type: ValueTypeV },
    FunctionDecl {
        name: Seq<char>,
        params: Seq<(Seq<char>, ValueTypeV)>,
        return_type: Box<ValueTypeV>,
        body: Seq<ZastIRInstructionV>,
    },
    Call { dest: Option<usize>, name: Seq<char>, args: Seq<ZastIRValueV> },
    Return(Option<ZastIRValueV>),
}

/// The views of a name-type pair sequence.
pub open spec fn pairs_view(ps: Seq<(String, ValueType)>) -> Seq<(Seq<char>, ValueTypeV)> {
    ps.map_values(|p: (String, ValueType)| (p.0@, p.1@))
}

/// The views of an instruction sequence.
pub open spec fn instrs_view(is: Seq<ZastIRInstruction>) -> Seq<ZastIRInstructionV>
    decreases is,
{
    if is.len() == 0 {
        Seq::<ZastIRInstructionV>::empty()
    } else {
        instrs_view(is.drop_last()).push(is.last()@)
    }
}

/// Pushing onto an instruction sequence appends its view.
pub proof fn lemma_instrs_view_push(is: Seq<ZastIRInstruction>, instr: ZastIRInstruction)
    ensures
        instrs_view(is.push(instr)) == instrs_view(is).push(instr@),
{
    assert(is.push(instr).drop_last() =~= is);
    assert(is.push(instr).last() == instr);
}

impl View for ZastIRInstruction {
    type V = ZastIRInstructionV;

    open spec fn view(&self) -> ZastIRInstructionV
        decreases self,
    {
        match self {
            ZastIRInstruction::Declare { name, val_type, value, mutable } => {
                ZastIRInstructionV::Declare {
                    name: name@,
                    val_type: val_type@,
                    value: value@,
                    mutable: *mutable,
                }
            },
            ZastIRInstruction::Assign { name, value } => ZastIRInstructionV::Assign {
                name: name@,
                value: value@,
            },
            ZastIRInstruction::BinaryOp { dest, op, left, right, val_type } => {
                ZastIRInstructionV::BinaryOp {
                    dest: *dest,
                    op: *op,
                    left: left@,
                    right: right@,
                    val_type: val_type@,
                }
            },
            ZastIRInstruction::UnaryOp { dest, op, operand, val_type } => {
                ZastIRInstructionV::UnaryOp {
                    dest: *dest,
                    op: *op,
                    operand: operand@,
                    val_type: val_type@,
                }
            },
            ZastIRInstruction::FunctionDecl { name, params, return_type, body } => {
                ZastIRInstructionV::FunctionDecl {
                    name: name@,
                    params: pairs_view(params@),
                    return_type: Box::new(return_type@),
                    body: instrs_view(body@),
                }
            },
            ZastIRInstruction::Call { dest, name, args } => ZastIRInstructionV::Call {
                dest: *dest,
                name: name@,
                args: args@.map_values(|a: ZastIRValue| a@),
            },
            ZastIRInstruction::Return(v) => ZastIRInstructionV::Return(
                match v {
                    Some(val) => Some(val@),
                    None => Option::<ZastIRValueV>::None,
                },
            ),
        }
    }
}

/// The binary operators of the stub.
#[derive(Debug, Clone, Copy, PartialEq, Eq, Structural)]
pub enum BinaryOp {
    Add,
    Sub,
    Mul,
    Div,
}

/// The unary operators of the stub.
#[derive(Debug, Clone, Copy, PartialEq, Eq, Structural)]
pub enum UnaryOp {
    Negate,
    Deref,
    Address,
}

/// A lowered program: its instructions in order.
#[derive(Debug)]
pub struct ZastIRProgram {
    pub instructions: Vec<ZastIRInstruction>,
}

impl View for ZastIRProgram {
    type V = Seq<ZastIRInstructionV>;

    open spec fn view(&self) -> Seq<ZastIRInstructionV> {
        instrs_view(self.instructions@)
    }
}

} // verus!
