//! The lowering stub: one instruction per recognised top-level function
//! declaration, carrying resolved parameter and return types and an
//! empty body. A placeholder step, not part of the front end's core
//! contract.

pub mod ir_instructions;
pub mod ir_values;

use vstd::prelude::*;

use crate::ast::{FunctionParameterV, StatementV, StmtV, ZastProgram};
use crate::sema::program_analyzable;
use crate::types::{
    annotated_resolvable, return_type_resolvable, spec_resolve_annotated,
    spec_resolve_return_type, ValueType,
};
use crate::zast_ir::ir_instructions::{
    pairs_view, ZastIRInstruction, ZastIRInstructionV, ZastIRProgram,
};

verus! {

/// The instruction a top-level statement lowers to, if any: only a
/// function declaration produces one.
pub open spec fn spec_emit_stmt(s: StatementV) -> Option<ZastIRInstructionV> {
    match s.node {
        StmtV::FunctionDeclaration { name, parameters, return_type, .. } => Some(
            ZastIRInstructionV::FunctionDecl {
                name,
                params: parameters.map_values(
                    |p: FunctionParameterV| (p.name, spec_resolve_annotated(p.annotated_type)),
                ),
                return_type: Box::new(spec_resolve_return_type(return_type)),
                body: Seq::<ZastIRInstructionV>::empty(),
            },
        ),
        _ => Option::<ZastIRInstructionV>::None,
    }
}

/// What lowering a whole program produces: the instructions of its
/// top-level function declarations, in order.
pub open spec fn spec_emit(p: Seq<StatementV>) -> Seq<ZastIRInstructionV>
    decreases p.len(),
{
    if p.len() == 0 {
        Seq::<ZastIRInstructionV>::empty()
    } else {
        spec_emit(p.drop_last()) + (match spec_emit_stmt(p.last()) {
            Some(instr) => seq![instr],
            Option::<ZastIRInstructionV>::None => Seq::<ZastIRInstructionV>::empty(),
        })
    }
}

/// Whether a statement's signature resolves wherever lowering reads it.
pub open spec fn stmt_emit_ready(s: StatementV) -> bool {
    match s.node {
        StmtV::FunctionDeclaration { parameters, return_type, .. } => {
            &&& forall|i: int|
                0 <= i < parameters.len() ==> annotated_resolvable(
                    (#[trigger] parameters[i]).annotated_type,
                )
            &&& return_type_resolvable(return_type)
        },
        _ => true,
    }
}

/// Whether every top-level statement is ready for lowering.
pub open spec fn program_emit_ready(p: Seq<StatementV>) -> bool {
    forall|i: int| 0 <= i < p.len() ==> stmt_emit_ready(#[trigger] p[i])
}

/// A program the analyzer handles is ready for lowering.
pub proof fn lemma_analyzable_emit_ready(p: Seq<StatementV>)
    requires
        program_analyzable(p),
    ensures
        program_emit_ready(p),
{
    crate::sema::lemma_stmts_analyzable_take(p, p.len() as int);
    assert forall|i: int| 0 <= i < p.len() implies stmt_emit_ready(#[trigger] p[i]) by {
        assert(crate::sema::stmt_analyzable(p[i]));
    }
}

/// The lowering stub.
#[derive(Debug)]
pub struct ZastIREmitter;

impl ZastIREmitter {
    /// A new emitter.
    pub fn new() -> (r: Self) {
        ZastIREmitter
    }

    /// Lowers a program: one instruction per top-level function
    /// declaration, in order.
    #[verifier::loop_isolation(false)]
    pub fn emit(&self, program: &ZastProgram) -> (r: ZastIRProgram)
        requires
            program_emit_ready(program@),
        ensures
            r@ == spec_emit(program@),
    {
        let ghost pv = program@;
        let mut instructions: Vec<ZastIRInstruction> = Vec::new();
        let mut i: usize = 0;
        proof {
            assert(pv.take(0) =~= Seq::<StatementV>::empty());
            assert(crate::zast_ir::ir_instructions::instrs_view(instructions@) =~= spec_emit(
                pv.take(0),
            ));
        }
        while i < program.body.len()
            invariant
                0 <= i <= program.body@.len(),
                pv.len() == program.body@.len(),
                crate::zast_ir::ir_instructions::instrs_view(instructions@) == spec_emit(
                    pv.take(i as int),
                ),
            decreases program.body@.len() - i,
        {
            proof {
                assert(program.body@[i as int]@ == pv[i as int]);
                assert(pv.take(i + 1).drop_last() =~= pv.take(i as int));
                assert(pv.take(i + 1).last() == pv[i as int]);
            }
            match self.emit_statement(&program.body[i]) {
                Some(instr) => {
                    let ghost prev = instructions@;
                    instructions.push(instr);
                    proof {
                        crate::zast_ir::ir_instructions::lemma_instrs_view_push(
                            prev,
                            instructions@[instructions@.len() - 1],
                        );
                        assert(crate::zast_ir::ir_instructions::instrs_view(instructions@)
                            =~= spec_emit(pv.take(i + 1)));
                    }
                },
                None => {
                    proof {
                        assert(crate::zast_ir::ir_instructions::instrs_view(instructions@)
                            =~= spec_emit(pv.take(i + 1)));
                    }
                },
            }
            i = i + 1;
        }
        proof {
            assert(pv.take(pv.len() as int) =~= pv);
        }
        ZastIRProgram { instructions }
    }

    /// Lowers one statement, if it is a function declaration.
    #[verifier::loop_isolation(false)]
    fn emit_statement(&self, stmt: &crate::ast::Statement) -> (r: Option<ZastIRInstruction>)
        requires
            stmt_emit_ready(stmt@),
        ensures
            match r {
                Some(instr) => spec_emit_stmt(stmt@) == Some(instr@),
                None => spec_emit_stmt(stmt@) is None,
            },
    {
        match &stmt.node {
            crate::ast::Stmt::FunctionDeclaration { name, parameters, return_type, .. } => {
                let ghost psv = stmt@.node->FunctionDeclaration_parameters;
                let mut params: Vec<(String, ValueType)> = Vec::new();
                let mut j: usize = 0;
                proof {
                    assert(pairs_view(params@) =~= psv.map_values(
                        |p: FunctionParameterV| (p.name, spec_resolve_annotated(p.annotated_type)),
                    ).take(0));
                }
                while j < parameters.len()
                    invariant
                        0 <= j <= parameters@.len(),
                        psv == parameters@.map_values(|p: crate::ast::FunctionParameter| p@),
                        psv.len() == parameters@.len(),
                        stmt_emit_ready(stmt@),
                        stmt@.node->FunctionDeclaration_parameters == psv,
                        pairs_view(params@) == psv.map_values(
                            |p: FunctionParameterV| (
                                p.name,
                                spec_resolve_annotated(p.annotated_type),
                            ),
                        ).take(j as int),
                    decreases parameters@.len() - j,
                {
                    proof {
                        assert(psv[j as int] == parameters@[j as int]@);
                        assert(annotated_resolvable(psv[j as int].annotated_type));
                    }
                    let ghost prev = params@;
                    params.push(
                        (
                            parameters[j].name.clone(),
                            ValueType::from_annotated_type(parameters[j].annotated_type.clone()),
                        ),
                    );
                    proof {
                        assert(params@.drop_last() =~= prev);
                        assert(pairs_view(params@) =~= psv.map_values(
                            |p: FunctionParameterV| (
                                p.name,
                                spec_resolve_annotated(p.annotated_type),
                            ),
                        ).take(j + 1));
                    }
                    j = j + 1;
                }
                proof {
                    let m = psv.map_values(
                        |p: FunctionParameterV| (p.name, spec_resolve_annotated(p.annotated_type)),
                    );
                    assert(m.take(m.len() as int) =~= m);
                }

                let ret_ty = ValueType::from_return_type(return_type.clone());

                Some(
                    ZastIRInstruction::FunctionDecl {
                        name: name.clone(),
                        params,
                        return_type: ret_ty,
                        body: vec![],
                    },
                )
            },
            _ => None,
        }
    }
}

} // verus!
