//! The semantic analyzer: walks the parsed tree, declares functions and
//! parameters through the scoped symbol table, and recurses into
//! bodies, collecting every independent diagnostic. What it declares
//! and reports is pinned to the analysis model below.

pub mod symbol_type_table;
pub mod type_map;

use vstd::prelude::*;

use crate::ast::{FunctionParameterV, Statement, StatementV, Stmt, StmtV, ZastProgram};
use crate::error_handler::zast_errors::{ZastError, ZastErrorV};
use crate::error_handler::ZastErrorCollector;
use crate::sema::symbol_type_table::{SymbolTypeV, ZastSymbolTypeTable};
use crate::sema::type_map::ZastTypeMap;
use crate::tokens::Span;
use crate::types::{
    annotated_resolvable, lemma_value_types_view_push, return_type_resolvable,
    spec_resolve_annotated, spec_resolve_return_type, value_types_view, ValueType, ValueTypeV,
};

verus! {

/// A stack of scopes as the analysis model sees it.
pub type ScopeStack = Seq<Map<Seq<char>, SymbolTypeV>>;

/// Whether the analyzer handles a statement: a function declaration
/// whose parameter and return annotations all resolve and whose body it
/// handles, or a block all of whose statements it handles. Anything
/// else reaches no implemented analysis path.
pub open spec fn stmt_analyzable(s: StatementV) -> bool
    decreases s,
{
    match s.node {
        StmtV::FunctionDeclaration { parameters, return_type, body, .. } => {
            &&& forall|i: int|
                0 <= i < parameters.len() ==> annotated_resolvable(
                    (#[trigger] parameters[i]).annotated_type,
                )
            &&& return_type_resolvable(return_type)
            &&& stmt_analyzable(*body)
        },
        StmtV::BlockStatement { statements } => stmts_analyzable(statements),
        _ => false,
    }
}

/// Whether the analyzer handles every statement of a sequence.
pub open spec fn stmts_analyzable(ss: Seq<StatementV>) -> bool
    decreases ss,
{
    ss.len() == 0 || (stmts_analyzable(ss.drop_last()) && stmt_analyzable(ss.last()))
}

/// Whether the analyzer handles every top-level statement of a program.
pub open spec fn program_analyzable(p: Seq<StatementV>) -> bool {
    stmts_analyzable(p)
}

/// The resolved types of a parameter list, in order.
pub open spec fn params_resolved(ps: Seq<FunctionParameterV>) -> Seq<ValueTypeV> {
    ps.map_values(|p: FunctionParameterV| spec_resolve_annotated(p.annotated_type))
}

/// The outcome of an analysis step: the scope stack afterwards and the
/// diagnostics recorded, in order.
pub struct AnalyzeOut {
    pub stack: ScopeStack,
    pub errs: Seq<ZastErrorV>,
}

/// What declaring a name in the innermost scope does: a name already
/// bound there is rejected with a redeclaration diagnostic citing the
/// original site, and the existing binding is kept.
pub open spec fn spec_declare_symbol(
    stack: ScopeStack,
    name: Seq<char>,
    sym: SymbolTypeV,
    is_function: bool,
) -> AnalyzeOut {
    if stack.len() == 0 {
        AnalyzeOut { stack, errs: Seq::<ZastErrorV>::empty() }
    } else if stack.last().contains_key(name) {
        AnalyzeOut {
            stack,
            errs: seq![
                if is_function {
                    ZastErrorV::FunctionRedeclaration {
                        span: sym.span,
                        fn_name: name,
                        original_span: stack.last()[name].span,
                    }
                } else {
                    ZastErrorV::VariableRedeclaration {
                        span: sym.span,
                        variable_name: name,
                        original_span: stack.last()[name].span,
                    }
                },
            ],
        }
    } else {
        AnalyzeOut {
            stack: stack.update(stack.len() - 1, stack.last().insert(name, sym)),
            errs: Seq::<ZastErrorV>::empty(),
        }
    }
}

/// What declaring a function's parameters, in order, does: each is an
/// identifier in the function's own scope, and a duplicate name is a
/// variable redeclaration citing the first one's site.
pub open spec fn spec_declare_params(stack: ScopeStack, ps: Seq<FunctionParameterV>) -> AnalyzeOut
    decreases ps.len(),
{
    if ps.len() == 0 {
        AnalyzeOut { stack, errs: Seq::<ZastErrorV>::empty() }
    } else {
        let pre = spec_declare_params(stack, ps.drop_last());
        let p = ps.last();
        let d = spec_declare_symbol(
            pre.stack,
            p.name,
            SymbolTypeV { value_type: spec_resolve_annotated(p.annotated_type), span: p.span },
            false,
        );
        AnalyzeOut { stack: d.stack, errs: pre.errs + d.errs }
    }
}

/// What analysing one statement does. A function declaration resolves
/// its signature, declares the function in the current scope, opens the
/// function's own scope, declares each parameter there, analyses the
/// body, and closes the scope again — nothing declared inside escapes.
/// A block analyses its statements in the enclosing scope: blocks open
/// no scope of their own. A failure never stops the walk: every
/// independent diagnostic is collected.
pub open spec fn spec_analyze_stmt(stack: ScopeStack, s: StatementV) -> AnalyzeOut
    decreases s,
{
    match s.node {
        StmtV::FunctionDeclaration { name, parameters, return_type, body } => {
            let fn_ty = ValueTypeV::Function {
                params: params_resolved(parameters),
                return_type: Box::new(spec_resolve_return_type(return_type)),
            };
            let d = spec_declare_symbol(
                stack,
                name,
                SymbolTypeV { value_type: fn_ty, span: s.span },
                true,
            );
            let entered = d.stack.push(Map::<Seq<char>, SymbolTypeV>::empty());
            let dp = spec_declare_params(entered, parameters);
            let b = spec_analyze_stmt(dp.stack, *body);
            AnalyzeOut { stack: b.stack.drop_last(), errs: d.errs + dp.errs + b.errs }
        },
        StmtV::BlockStatement { statements } => spec_analyze_stmts(stack, statements),
        _ => AnalyzeOut { stack, errs: Seq::<ZastErrorV>::empty() },
    }
}

/// What analysing a statement sequence does, in order, in one scope.
pub open spec fn spec_analyze_stmts(stack: ScopeStack, ss: Seq<StatementV>) -> AnalyzeOut
    decreases ss,
{
    if ss.len() == 0 {
        AnalyzeOut { stack, errs: Seq::<ZastErrorV>::empty() }
    } else {
        let pre = spec_analyze_stmts(stack, ss.drop_last());
        let st = spec_analyze_stmt(pre.stack, ss.last());
        AnalyzeOut { stack: st.stack, errs: pre.errs + st.errs }
    }
}

/// What analysing a whole program does, from a given starting stack:
/// its top-level statements in order, in the program scope.
pub open spec fn spec_analyze_program(stack: ScopeStack, p: Seq<StatementV>) -> AnalyzeOut {
    spec_analyze_stmts(stack, p)
}

/// Declaring parameters never changes how many scopes are open.
pub proof fn lemma_declare_params_len(stack: ScopeStack, ps: Seq<FunctionParameterV>)
    ensures
        spec_declare_params(stack, ps).stack.len() == stack.len(),
    decreases ps.len(),
{
    if ps.len() > 0 {
        lemma_declare_params_len(stack, ps.drop_last());
    }
}

/// Analysing a statement never changes how many scopes are open.
pub proof fn lemma_analyze_stmt_len(stack: ScopeStack, s: StatementV)
    ensures
        spec_analyze_stmt(stack, s).stack.len() == stack.len(),
    decreases s,
{
    match s.node {
        StmtV::FunctionDeclaration { name, parameters, return_type, body } => {
            let fn_ty = ValueTypeV::Function {
                params: params_resolved(parameters),
                return_type: Box::new(spec_resolve_return_type(return_type)),
            };
            let d = spec_declare_symbol(
                stack,
                name,
                SymbolTypeV { value_type: fn_ty, span: s.span },
                true,
            );
            let entered = d.stack.push(Map::<Seq<char>, SymbolTypeV>::empty());
            lemma_declare_params_len(entered, parameters);
            let dp = spec_declare_params(entered, parameters);
            lemma_analyze_stmt_len(dp.stack, *body);
        },
        StmtV::BlockStatement { statements } => {
            lemma_analyze_stmts_len(stack, statements);
        },
        _ => {},
    }
}

/// Analysing a statement sequence never changes how many scopes are
/// open.
pub proof fn lemma_analyze_stmts_len(stack: ScopeStack, ss: Seq<StatementV>)
    ensures
        spec_analyze_stmts(stack, ss).stack.len() == stack.len(),
    decreases ss,
{
    if ss.len() > 0 {
        lemma_analyze_stmts_len(stack, ss.drop_last());
        lemma_analyze_stmt_len(spec_analyze_stmts(stack, ss.drop_last()).stack, ss.last());
    }
}

/// Declaring parameters touches only the innermost scope.
pub proof fn lemma_declare_params_outer(stack: ScopeStack, ps: Seq<FunctionParameterV>)
    requires
        stack.len() >= 1,
    ensures
        spec_declare_params(stack, ps).stack.drop_last() =~= stack.drop_last(),
    decreases ps.len(),
{
    if ps.len() > 0 {
        lemma_declare_params_outer(stack, ps.drop_last());
        lemma_declare_params_len(stack, ps.drop_last());
        let pre = spec_declare_params(stack, ps.drop_last());
        let p = ps.last();
        let d = spec_declare_symbol(
            pre.stack,
            p.name,
            SymbolTypeV { value_type: spec_resolve_annotated(p.annotated_type), span: p.span },
            false,
        );
        assert(d.stack.drop_last() =~= pre.stack.drop_last());
    }
}

/// No declaration escapes to an outer scope: analysing a statement
/// leaves every scope but the innermost exactly as it was. A function
/// body's scope, and everything declared in it, is discarded in full
/// when the function is left.
pub proof fn lemma_analyze_stmt_outer(stack: ScopeStack, s: StatementV)
    requires
        stack.len() >= 1,
    ensures
        spec_analyze_stmt(stack, s).stack.drop_last() =~= stack.drop_last(),
    decreases s,
{
    match s.node {
        StmtV::FunctionDeclaration { name, parameters, return_type, body } => {
            let fn_ty = ValueTypeV::Function {
                params: params_resolved(parameters),
                return_type: Box::new(spec_resolve_return_type(return_type)),
            };
            let d = spec_declare_symbol(
                stack,
                name,
                SymbolTypeV { value_type: fn_ty, span: s.span },
                true,
            );
            let entered = d.stack.push(Map::<Seq<char>, SymbolTypeV>::empty());
            lemma_declare_params_outer(entered, parameters);
            lemma_declare_params_len(entered, parameters);
            let dp = spec_declare_params(entered, parameters);
            lemma_analyze_stmt_outer(dp.stack, *body);
            lemma_analyze_stmt_len(dp.stack, *body);
            let b = spec_analyze_stmt(dp.stack, *body);
            assert(entered.drop_last() =~= d.stack);
            assert(b.stack.drop_last() =~= d.stack);
            assert(d.stack.drop_last() =~= stack.drop_last());
        },
        StmtV::BlockStatement { statements } => {
            lemma_analyze_stmts_outer(stack, statements);
        },
        _ => {},
    }
}

/// No declaration escapes to an outer scope, over a whole statement
/// sequence.
pub proof fn lemma_analyze_stmts_outer(stack: ScopeStack, ss: Seq<StatementV>)
    requires
        stack.len() >= 1,
    ensures
        spec_analyze_stmts(stack, ss).stack.drop_last() =~= stack.drop_last(),
    decreases ss,
{
    if ss.len() > 0 {
        lemma_analyze_stmts_outer(stack, ss.drop_last());
        lemma_analyze_stmts_len(stack, ss.drop_last());
        let pre = spec_analyze_stmts(stack, ss.drop_last());
        lemma_analyze_stmt_outer(pre.stack, ss.last());
        assert(spec_analyze_stmt(pre.stack, ss.last()).stack.drop_last() =~= stack.drop_last());
    }
}

/// The semantic analyzer: its diagnostics, its annotation cache and its
/// scoped symbol table.
#[derive(Debug)]
pub struct ZastSemanticAnalyzer {
    errors: ZastErrorCollector,
    type_map: ZastTypeMap,
    symbol_type_table: ZastSymbolTypeTable,
}

impl ZastSemanticAnalyzer {
    /// The diagnostics recorded so far, in order.
    pub closed spec fn errs(&self) -> Seq<ZastErrorV> {
        self.errors@
    }

    /// The scope stack as the model sees it.
    pub closed spec fn stack(&self) -> ScopeStack {
        self.symbol_type_table@
    }

    /// The analyzer's invariant.
    pub closed spec fn wf(&self) -> bool {
        self.symbol_type_table.wf() && self.type_map.wf()
    }

    /// A fresh analyzer: no diagnostics, an empty cache, and a symbol
    /// table holding one empty program scope.
    pub fn new() -> (r: Self)
        ensures
            r.wf(),
            r.errs().len() == 0,
            r.stack() =~= seq![Map::<Seq<char>, SymbolTypeV>::empty()],
    {
        ZastSemanticAnalyzer {
            errors: ZastErrorCollector::new(),
            type_map: ZastTypeMap::new(),
            symbol_type_table: ZastSymbolTypeTable::new(),
        }
    }

    /// Analyses a whole program. Success is all-or-nothing: the result
    /// is `Ok` exactly when no diagnostic was recorded; on failure the
    /// collector is handed out with every diagnostic, in order. The
    /// scope stack ends as the model says — in particular, top-level
    /// function declarations stay declared in the program scope.
    #[verifier::loop_isolation(false)]
    pub fn analyze(&mut self, program: ZastProgram) -> (r: Result<(), ZastErrorCollector>)
        requires
            old(self).wf(),
            program_analyzable(program@),
            old(self).stack().len() >= 1,
        ensures
            final(self).wf(),
            final(self).errs().len() == 0,
            ({
                let o = spec_analyze_program(old(self).stack(), program@);
                &&& final(self).stack() == o.stack
                &&& (match r {
                    Ok(()) => (old(self).errs() + o.errs).len() == 0,
                    Err(c) => (old(self).errs() + o.errs).len() > 0 && c@ == old(self).errs()
                        + o.errs,
                })
            }),
    {
        let ghost stack0 = self.stack();
        let ghost errs0 = self.errs();
        let ghost prog = program@;

        let mut i: usize = 0;
        proof {
            assert(prog.take(0) =~= Seq::<StatementV>::empty());
        }
        while i < program.body.len()
            invariant
                0 <= i <= program.body@.len(),
                prog == program@,
                prog.len() == program.body@.len(),
                program_analyzable(prog),
                self.wf(),
                self.stack().len() >= 1,
                ({
                    let pre = spec_analyze_stmts(stack0, prog.take(i as int));
                    self.stack() == pre.stack && self.errs() == errs0 + pre.errs
                }),
            decreases program.body@.len() - i,
        {
            proof {
                lemma_stmts_analyzable_take(prog, i as int + 1);
                assert(prog.take(i + 1).drop_last() =~= prog.take(i as int));
                assert(prog.take(i + 1).last() == prog[i as int]);
                assert(program.body@[i as int]@ == prog[i as int]);
                lemma_analyze_stmts_len(stack0, prog.take(i as int));
            }
            let ghost pre = spec_analyze_stmts(stack0, prog.take(i as int));
            let ghost errs_it = self.errs();
            self.analyze_stmt(&program.body[i]);
            proof {
                lemma_analyze_stmt_len(pre.stack, prog[i as int]);
                assert(spec_analyze_stmts(stack0, prog.take(i + 1)).stack
                    == spec_analyze_stmt(pre.stack, prog[i as int]).stack);
                assert(self.errs() =~= errs0 + spec_analyze_stmts(
                    stack0,
                    prog.take(i + 1),
                ).errs);
            }
            i = i + 1;
        }
        proof {
            assert(prog.take(prog.len() as int) =~= prog);
        }

        if self.errors.has_errors() {
            Err(self.errors.take())
        } else {
            Ok(())
        }
    }

    /// Analyses one statement, as the model says.
    #[verifier::loop_isolation(false)]
    fn analyze_stmt(&mut self, stmt: &Statement)
        requires
            old(self).wf(),
            stmt_analyzable(stmt@),
            old(self).stack().len() >= 1,
        ensures
            final(self).wf(),
            ({
                let o = spec_analyze_stmt(old(self).stack(), stmt@);
                &&& final(self).stack() == o.stack
                &&& final(self).errs() == old(self).errs() + o.errs
            }),
        decreases stmt,
    {
        let ghost stack0 = self.stack();
        let ghost errs0 = self.errs();
        let ghost sv = stmt@;

        match &stmt.node {
            Stmt::FunctionDeclaration { name, parameters, return_type, body } => {
                let ghost psv = sv.node->FunctionDeclaration_parameters;
                proof {
                    assert(psv == parameters@.map_values(|p: crate::ast::FunctionParameter| p@));
                    assert(params_resolved(psv).take(0) =~= Seq::<ValueTypeV>::empty());
                    assert(value_types_view(Seq::<ValueType>::empty())
                        =~= Seq::<ValueTypeV>::empty());
                }
                let mut params: Vec<ValueType> = Vec::new();
                let mut j: usize = 0;
                while j < parameters.len()
                    invariant
                        0 <= j <= parameters@.len(),
                        psv == parameters@.map_values(|p: crate::ast::FunctionParameter| p@),
                        stmt_analyzable(sv),
                        sv.node->FunctionDeclaration_parameters == psv,
                        value_types_view(params@) == params_resolved(psv).take(j as int),
                        params@.len() == j,
                    decreases parameters@.len() - j,
                {
                    proof {
                        assert(psv[j as int] == parameters@[j as int]@);
                        assert(annotated_resolvable(psv[j as int].annotated_type));
                    }
                    let ghost params_prev = params@;
                    params.push(ValueType::from_annotated_type(parameters[j].annotated_type.clone()));
                    proof {
                        lemma_value_types_view_push(params_prev, params@[params@.len() - 1]);
                        assert(params@ =~= params_prev.push(params@[params@.len() - 1]));
                        assert(params_resolved(psv).take(j + 1) =~= params_resolved(psv).take(
                            j as int,
                        ).push(params_resolved(psv)[j as int]));
                    }
                    j = j + 1;
                }
                proof {
                    assert(params_resolved(psv).take(psv.len() as int) =~= params_resolved(psv));
                }

                let ghost fn_ty = ValueTypeV::Function {
                    params: params_resolved(psv),
                    return_type: Box::new(
                        spec_resolve_return_type(sv.node->FunctionDeclaration_return_type),
                    ),
                };
                let ghost d = spec_declare_symbol(
                    stack0,
                    sv.node->FunctionDeclaration_name,
                    SymbolTypeV { value_type: fn_ty, span: sv.span },
                    true,
                );
                proof {
                    assert(sv.node->FunctionDeclaration_return_type == return_type@);
                    assert(sv.node->FunctionDeclaration_name == name@);
                    assert(sv.span == stmt.span);
                }
                self.declare_function_type(
                    name.clone(),
                    params,
                    ValueType::from_return_type(return_type.clone()),
                    stmt.span,
                );
                proof {
                    assert(self.stack() == d.stack);
                    assert(self.errs() == errs0 + d.errs);
                }

                self.enter_scope();

                let ghost entered = self.stack();
                let ghost errs_entered = self.errs();
                let mut k: usize = 0;
                proof {
                    assert(psv.take(0) =~= Seq::<FunctionParameterV>::empty());
                }
                while k < parameters.len()
                    invariant
                        0 <= k <= parameters@.len(),
                        psv == parameters@.map_values(|p: crate::ast::FunctionParameter| p@),
                        stmt_analyzable(sv),
                        sv.node->FunctionDeclaration_parameters == psv,
                        self.wf(),
                        ({
                            let dp = spec_declare_params(entered, psv.take(k as int));
                            self.stack() == dp.stack && self.errs() == errs_entered + dp.errs
                        }),
                    decreases parameters@.len() - k,
                {
                    proof {
                        assert(psv.take(k + 1).drop_last() =~= psv.take(k as int));
                        assert(psv.take(k + 1).last() == psv[k as int]);
                        assert(psv[k as int] == parameters@[k as int]@);
                        assert(annotated_resolvable(psv[k as int].annotated_type));
                    }
                    let ghost dp_pre = spec_declare_params(entered, psv.take(k as int));
                    proof {
                        lemma_declare_params_len(entered, psv.take(k as int));
                    }
                    self.declare_ident_type_mapping(
                        parameters[k].name.clone(),
                        ValueType::from_annotated_type(parameters[k].annotated_type.clone()),
                        parameters[k].span,
                    );
                    proof {
                        assert(self.errs() =~= errs_entered + spec_declare_params(
                            entered,
                            psv.take(k + 1),
                        ).errs);
                    }
                    k = k + 1;
                }
                proof {
                    assert(psv.take(psv.len() as int) =~= psv);
                    lemma_declare_params_len(entered, psv);
                }

                let ghost dp = spec_declare_params(entered, psv);
                let ghost bodyv = *sv.node->FunctionDeclaration_body;
                proof {
                    assert((**body)@ == bodyv);
                    assert(stmt_analyzable(bodyv));
                    lemma_analyze_stmt_len(dp.stack, bodyv);
                }
                self.analyze_stmt(body);
                let ghost b = spec_analyze_stmt(dp.stack, bodyv);
                proof {
                    assert(self.stack() == b.stack);
                    assert(b.stack.len() == entered.len());
                    assert(entered.len() == stack0.len() + 1);
                }
                self.exit_scope();
                proof {
                    assert(self.stack() == b.stack.drop_last());
                    assert(self.stack() == spec_analyze_stmt(stack0, sv).stack);
                    assert(self.errs() =~= errs0 + spec_analyze_stmt(stack0, sv).errs);
                }
            },
            Stmt::BlockStatement { statements } => {
                let ghost ssv = sv.node->BlockStatement_statements;
                proof {
                    assert(ssv == crate::ast::stmts_view(statements@));
                    assert(stmts_analyzable(ssv));
                    lemma_stmts_view_len(statements@);
                    assert(ssv.take(0) =~= Seq::<StatementV>::empty());
                }
                let mut i: usize = 0;
                while i < statements.len()
                    invariant
                        0 <= i <= statements@.len(),
                        ssv == crate::ast::stmts_view(statements@),
                        ssv.len() == statements@.len(),
                        stmts_analyzable(ssv),
                        self.wf(),
                        self.stack().len() >= 1,
                        ({
                            let pre = spec_analyze_stmts(stack0, ssv.take(i as int));
                            self.stack() == pre.stack && self.errs() == errs0 + pre.errs
                        }),
                    decreases statements@.len() - i,
                {
                    proof {
                        lemma_stmts_analyzable_take(ssv, i as int + 1);
                        lemma_stmts_view_index(statements@, i as int);
                        assert(ssv.take(i + 1).drop_last() =~= ssv.take(i as int));
                        assert(ssv.take(i + 1).last() == ssv[i as int]);
                        lemma_analyze_stmts_len(stack0, ssv.take(i as int));
                    }
                    let ghost pre = spec_analyze_stmts(stack0, ssv.take(i as int));
                    proof {
                        lemma_stmts_analyzable_take(ssv, i as int + 1);
                    }
                    self.analyze_stmt(&statements[i]);
                    proof {
                        lemma_analyze_stmt_len(pre.stack, ssv[i as int]);
                        assert(spec_analyze_stmts(stack0, ssv.take(i + 1)).stack
                            == spec_analyze_stmt(pre.stack, ssv[i as int]).stack);
                        assert(self.errs() =~= errs0 + spec_analyze_stmts(
                            stack0,
                            ssv.take(i + 1),
                        ).errs);
                    }
                    i = i + 1;
                }
                proof {
                    assert(ssv.take(ssv.len() as int) =~= ssv);
                }
            },
            _ => {
                proof {
                    assert(false);
                }
            },
        }
    }

    /// Declares an identifier in the current scope, recording the
    /// diagnostic on a redeclaration.
    fn declare_ident_type_mapping(
        &mut self,
        identifier: String,
        value_type: ValueType,
        span: Span,
    ) -> (r: Option<()>)
        requires
            old(self).wf(),
            old(self).stack().len() >= 1,
        ensures
            final(self).wf(),
            ({
                let d = spec_declare_symbol(
                    old(self).stack(),
                    identifier@,
                    SymbolTypeV { value_type: value_type@, span },
                    false,
                );
                &&& final(self).stack() == d.stack
                &&& final(self).errs() == old(self).errs() + d.errs
                &&& (r is Some <==> d.errs.len() == 0)
            }),
    {
        let ghost d = spec_declare_symbol(
            old(self).stack(),
            identifier@,
            SymbolTypeV { value_type: value_type@, span },
            false,
        );
        match self.symbol_type_table.declare_ident_type(identifier, value_type, span) {
            Ok(()) => {
                proof {
                    assert(self.errs() =~= old(self).errs() + d.errs);
                }
                Some(())
            },
            Err(zast_err) => {
                self.throw_error(zast_err);
                proof {
                    assert(self.errs() =~= old(self).errs() + d.errs);
                }
                None
            },
        }
    }

    /// Declares a function in the current scope, recording the
    /// diagnostic on a redeclaration.
    fn declare_function_type(
        &mut self,
        identifier: String,
        params: Vec<ValueType>,
        return_type: ValueType,
        span: Span,
    ) -> (r: Option<()>)
        requires
            old(self).wf(),
            old(self).stack().len() >= 1,
        ensures
            final(self).wf(),
            ({
                let d = spec_declare_symbol(
                    old(self).stack(),
                    identifier@,
                    SymbolTypeV {
                        value_type: ValueTypeV::Function {
                            params: value_types_view(params@),
                            return_type: Box::new(return_type@),
                        },
                        span,
                    },
                    true,
                );
                &&& final(self).stack() == d.stack
                &&& final(self).errs() == old(self).errs() + d.errs
                &&& (r is Some <==> d.errs.len() == 0)
            }),
    {
        let ghost d = spec_declare_symbol(
            old(self).stack(),
            identifier@,
            SymbolTypeV {
                value_type: ValueTypeV::Function {
                    params: value_types_view(params@),
                    return_type: Box::new(return_type@),
                },
                span,
            },
            true,
        );
        match self.symbol_type_table.declare_function_type(identifier, params, return_type, span) {
            Ok(()) => {
                proof {
                    assert(self.errs() =~= old(self).errs() + d.errs);
                }
                Some(())
            },
            Err(zast_err) => {
                self.throw_error(zast_err);
                proof {
                    assert(self.errs() =~= old(self).errs() + d.errs);
                }
                None
            },
        }
    }

    /// Opens the function scope.
    fn enter_scope(&mut self)
        requires
            old(self).wf(),
        ensures
            final(self).wf(),
            final(self).stack() == old(self).stack().push(Map::<Seq<char>, SymbolTypeV>::empty()),
            final(self).errs() == old(self).errs(),
    {
        self.symbol_type_table.enter_scope();
    }

    /// Closes the innermost scope; everything declared in it is gone.
    fn exit_scope(&mut self)
        requires
            old(self).wf(),
            old(self).stack().len() >= 2,
        ensures
            final(self).wf(),
            final(self).stack() == old(self).stack().drop_last(),
            final(self).errs() == old(self).errs(),
    {
        self.symbol_type_table.exit_scope();
    }

    /// Records a diagnostic.
    fn throw_error(&mut self, zast_error: ZastError)
        requires
            old(self).wf(),
        ensures
            final(self).wf(),
            final(self).stack() == old(self).stack(),
            final(self).errs() == old(self).errs().push(zast_error@),
    {
        self.errors.add_error(zast_error);
    }
}

/// Whether the analyzer handles a statement, decided executably: the
/// test a caller makes before handing a program to [`ZastSemanticAnalyzer::analyze`].
#[verifier::loop_isolation(false)]
pub fn stmt_is_analyzable(stmt: &Statement) -> (r: bool)
    ensures
        r == stmt_analyzable(stmt@),
    decreases stmt,
{
    match &stmt.node {
        Stmt::FunctionDeclaration { parameters, return_type, body, .. } => {
            let ghost psv = stmt@.node->FunctionDeclaration_parameters;
            let mut i: usize = 0;
            while i < parameters.len()
                invariant
                    0 <= i <= parameters@.len(),
                    psv == parameters@.map_values(|p: crate::ast::FunctionParameter| p@),
                    forall|j: int|
                        0 <= j < i ==> annotated_resolvable(
                            (#[trigger] psv[j]).annotated_type,
                        ),
                decreases parameters@.len() - i,
            {
                proof {
                    assert(psv[i as int] == parameters@[i as int]@);
                }
                if !parameters[i].annotated_type.is_resolvable() {
                    return false;
                }
                i = i + 1;
            }
            if !return_type.is_resolvable() {
                return false;
            }
            stmt_is_analyzable(body)
        },
        Stmt::BlockStatement { statements } => {
            let ghost ssv = stmt@.node->BlockStatement_statements;
            let mut i: usize = 0;
            proof {
                lemma_stmts_view_len(statements@);
                assert(ssv.take(0) =~= Seq::<StatementV>::empty());
            }
            while i < statements.len()
                invariant
                    0 <= i <= statements@.len(),
                    ssv == crate::ast::stmts_view(statements@),
                    ssv.len() == statements@.len(),
                    stmts_analyzable(ssv.take(i as int)),
                decreases statements@.len() - i,
            {
                proof {
                    lemma_stmts_view_index(statements@, i as int);
                    assert(ssv.take(i + 1).drop_last() =~= ssv.take(i as int));
                    assert(ssv.take(i + 1).last() == ssv[i as int]);
                }
                if !stmt_is_analyzable(&statements[i]) {
                    proof {
                        lemma_stmts_analyzable_take_not(ssv, i as int);
                    }
                    return false;
                }
                i = i + 1;
            }
            proof {
                assert(ssv.take(ssv.len() as int) =~= ssv);
            }
            true
        },
        _ => false,
    }
}

/// Whether the analyzer handles every top-level statement of a program,
/// decided executably.
#[verifier::loop_isolation(false)]
pub fn program_is_analyzable(program: &ZastProgram) -> (r: bool)
    ensures
        r == program_analyzable(program@),
{
    let ghost pv = program@;
    let mut i: usize = 0;
    proof {
        assert(pv.take(0) =~= Seq::<StatementV>::empty());
    }
    while i < program.body.len()
        invariant
            0 <= i <= program.body@.len(),
            pv == program@,
            pv.len() == program.body@.len(),
            stmts_analyzable(pv.take(i as int)),
        decreases program.body@.len() - i,
    {
        proof {
            assert(pv[i as int] == program.body@[i as int]@);
            assert(pv.take(i + 1).drop_last() =~= pv.take(i as int));
            assert(pv.take(i + 1).last() == pv[i as int]);
        }
        if !stmt_is_analyzable(&program.body[i]) {
            proof {
                lemma_stmts_analyzable_take_not(pv, i as int);
            }
            return false;
        }
        i = i + 1;
    }
    proof {
        assert(pv.take(pv.len() as int) =~= pv);
    }
    true
}

/// An analyzable sequence has analyzable prefixes.
pub proof fn lemma_stmts_analyzable_take(ss: Seq<StatementV>, i: int)
    requires
        stmts_analyzable(ss),
        0 <= i <= ss.len(),
    ensures
        stmts_analyzable(ss.take(i)),
        forall|j: int| 0 <= j < i ==> stmt_analyzable(#[trigger] ss[j]),
    decreases ss.len(),
{
    if ss.len() > 0 {
        lemma_stmts_analyzable_take(ss.drop_last(), if i < ss.len() { i } else { i - 1 });
        if i < ss.len() {
            assert(ss.drop_last().take(i) =~= ss.take(i));
        } else {
            assert(ss.take(i) =~= ss);
            assert(forall|j: int| 0 <= j < ss.len() - 1 ==> ss.drop_last()[j] == ss[j]);
        }
        assert(forall|j: int| 0 <= j < ss.len() - 1 ==> ss.drop_last()[j] == ss[j]);
    }
}

/// A sequence with an unanalyzable statement is not analyzable.
pub proof fn lemma_stmts_analyzable_take_not(ss: Seq<StatementV>, i: int)
    requires
        0 <= i < ss.len(),
        !stmt_analyzable(ss[i]),
    ensures
        !stmts_analyzable(ss),
{
    if stmts_analyzable(ss) {
        lemma_stmts_analyzable_take(ss, ss.len() as int);
    }
}

/// A boxed statement sequence and its view have one length.
pub proof fn lemma_stmts_view_len(ss: Seq<Box<Statement>>)
    ensures
        crate::ast::stmts_view(ss).len() == ss.len(),
    decreases ss.len(),
{
    if ss.len() > 0 {
        lemma_stmts_view_len(ss.drop_last());
        assert(crate::ast::stmts_view(ss) == crate::ast::stmts_view(ss.drop_last()).push(
            (*ss.last())@,
        ));
    }
}

/// An element of a boxed statement sequence views to the element of the
/// sequence's view.
pub proof fn lemma_stmts_view_index(ss: Seq<Box<Statement>>, i: int)
    requires
        0 <= i < ss.len(),
    ensures
        crate::ast::stmts_view(ss)[i] == (*ss[i])@,
        crate::ast::stmts_view(ss).len() == ss.len(),
    decreases ss.len(),
{
    lemma_stmts_view_len(ss);
    if ss.len() > 0 {
        lemma_stmts_view_len(ss.drop_last());
        assert(crate::ast::stmts_view(ss) == crate::ast::stmts_view(ss.drop_last()).push(
            (*ss.last())@,
        ));
        if i < ss.len() - 1 {
            lemma_stmts_view_index(ss.drop_last(), i);
            assert(ss.drop_last()[i] == ss[i]);
        }
    }
}

} // verus!
