//! The statement engine: declarations, blocks, and the expression
//! statement fallback.

use vstd::prelude::*;

use crate::ast::{
    stmts_view, FunctionParameter, FunctionParameterV, Statement, StatementV, Stmt,
};
use crate::error_handler::zast_errors::{Expected, ExpectedV, ZastErrorV};
use crate::parser::grammar::{
    spec_block_loop, spec_params_loop, spec_parse_block, spec_parse_fn_decl,
    spec_parse_param_list, spec_parse_var_decl, spec_try_parse_stmt,
};
use crate::parser::precedence_table::Precedence;
use crate::parser::ZastParser;
use crate::tokens::{Span, TokenKind};

verus! {

/// Whether a returned statement agrees with a model result.
pub open spec fn opt_stmt_agrees(r: Option<Statement>, m: Option<StatementV>) -> bool {
    match r {
        Some(s) => m matches Some(v) && s@ == v,
        None => m is None,
    }
}

/// The views of a parameter sequence.
pub open spec fn params_view(ps: Seq<FunctionParameter>) -> Seq<FunctionParameterV> {
    ps.map_values(|p: FunctionParameter| p@)
}

impl ZastParser {
    /// Attempts one statement: `let`, `const` and `fn` dispatch to
    /// their declaration rules; anything else parses as an expression
    /// statement terminated by `;`.
    #[verifier::loop_isolation(false)]
    pub fn try_parse_stmt(&mut self) -> (r: Option<Statement>)
        requires
            old(self).wf(),
        ensures
            final(self).wf(),
            final(self).toks() == old(self).toks(),
            final(self).pos() >= old(self).pos(),
            r is Some ==> final(self).pos() > old(self).pos(),
            ({
                let o = spec_try_parse_stmt(old(self).toks(), old(self).pos());
                &&& final(self).pos() == o.pos
                &&& final(self).errs() == old(self).errs() + o.errs
                &&& opt_stmt_agrees(r, o.res)
            }),
        decreases old(self).toks().len() - old(self).pos(), 11int,
    {
        match self.current_token_kind() {
            TokenKind::Let | TokenKind::Const => {
                return self.parse_variable_declaration();
            },
            TokenKind::Fn => {
                return self.parse_function_declaration();
            },
            _ => {},
        }

        let stmt_expr = match self.try_parse_expr(Precedence::Default) {
            Some(e) => e,
            None => {
                return None;
            },
        };
        let stmt_expr_span = stmt_expr.span;
        let stmt = Stmt::Expression { expression: stmt_expr };

        let expected = vec![Expected::Token(TokenKind::Semicolon)];
        proof {
            assert(expected@.map_values(|e: Expected| e@) =~= seq![ExpectedV::Token(
                TokenKind::Semicolon,
            )]);
        }
        if !self.expect(expected) {
            proof {
                assert(final(self).errs() =~= old(self).errs() + spec_try_parse_stmt(
                    old(self).toks(),
                    old(self).pos(),
                ).errs);
            }
            return None;
        }
        proof {
            assert(final(self).errs() =~= old(self).errs() + spec_try_parse_stmt(
                old(self).toks(),
                old(self).pos(),
            ).errs);
        }
        Some(stmt.spanned(stmt_expr_span))
    }

    /// Parses a variable declaration:
    /// `('let'|'const') identifier ':' type '=' expression ';'`.
    /// The binding is mutable exactly when the keyword was `let`.
    pub fn parse_variable_declaration(&mut self) -> (r: Option<Statement>)
        requires
            old(self).wf(),
        ensures
            final(self).wf(),
            final(self).toks() == old(self).toks(),
            final(self).pos() >= old(self).pos(),
            r is Some ==> final(self).pos() > old(self).pos(),
            ({
                let o = spec_parse_var_decl(old(self).toks(), old(self).pos());
                &&& final(self).pos() == o.pos
                &&& final(self).errs() == old(self).errs() + o.errs
                &&& opt_stmt_agrees(r, o.res)
            }),
    {
        let ghost toks = self.toks();
        let ghost pos0 = self.pos();
        let ghost errs0 = self.errs();
        let ghost o = spec_parse_var_decl(toks, pos0);

        let decl_tok_kind = self.current_token().kind;
        let decl_span = self.current_token().span;
        self.advance();

        let expected_ident = vec![Expected::Token(TokenKind::Identifier)];
        proof {
            assert(expected_ident@.map_values(|e: Expected| e@) =~= seq![ExpectedV::Token(
                TokenKind::Identifier,
            )]);
        }
        if !self.check(expected_ident) {
            proof {
                assert(self.errs() =~= errs0 + o.errs);
            }
            return None;
        }

        let identifier = match self.current_token().literal.get_identifier() {
            Some(s) => s,
            None => {
                proof {
                    assert(false);
                }
                return None;
            },
        };
        self.advance();

        let expected_colon = vec![Expected::Token(TokenKind::Colon)];
        proof {
            assert(expected_colon@.map_values(|e: Expected| e@) =~= seq![ExpectedV::Token(
                TokenKind::Colon,
            )]);
        }
        if !self.expect(expected_colon) {
            proof {
                assert(self.errs() =~= errs0 + o.errs);
            }
            return None;
        }

        let value_type = match self.try_parse_value_type() {
            Some(t) => t,
            None => {
                proof {
                    assert(self.errs() =~= errs0 + o.errs);
                }
                return None;
            },
        };

        let expected_assign = vec![Expected::Token(TokenKind::Assignment)];
        proof {
            assert(expected_assign@.map_values(|e: Expected| e@) =~= seq![ExpectedV::Token(
                TokenKind::Assignment,
            )]);
        }
        if !self.expect(expected_assign) {
            proof {
                assert(self.errs() =~= errs0 + o.errs);
            }
            return None;
        }

        let value = match self.try_parse_expr(Precedence::Default) {
            Some(e) => e,
            None => {
                proof {
                    assert(self.errs() =~= errs0 + o.errs);
                }
                return None;
            },
        };
        let value_span = value.span;

        let expected_semi = vec![Expected::Token(TokenKind::Semicolon)];
        proof {
            assert(expected_semi@.map_values(|e: Expected| e@) =~= seq![ExpectedV::Token(
                TokenKind::Semicolon,
            )]);
        }
        if !self.expect(expected_semi) {
            proof {
                assert(self.errs() =~= errs0 + o.errs);
            }
            return None;
        }

        let full_span = Span {
            ln_start: decl_span.ln_start,
            ln_end: value_span.ln_end,
            col_start: decl_span.col_start,
            col_end: value_span.col_end,
        };
        let r = Some(
            Stmt::VariableDeclaration {
                mutable: match decl_tok_kind {
                    TokenKind::Let => true,
                    _ => false,
                },
                identifier,
                annotated_type: value_type,
                value,
            }.spanned(full_span),
        );
        proof {
            assert(self.errs() =~= errs0 + o.errs);
        }
        r
    }

    /// Parses one `name: type` parameter. Its span is the name token's
    /// span, the site a duplicate parameter would cite.
    fn parse_single_param(&mut self) -> (r: Option<FunctionParameter>)
        requires
            old(self).wf(),
        ensures
            final(self).wf(),
            final(self).toks() == old(self).toks(),
            final(self).pos() >= old(self).pos(),
            r is Some ==> final(self).pos() > old(self).pos(),
            ({
                let o = crate::parser::grammar::spec_parse_single_param(
                    old(self).toks(),
                    old(self).pos(),
                );
                &&& final(self).pos() == o.pos
                &&& final(self).errs() == old(self).errs() + o.errs
                &&& (match r {
                    Some(p) => o.res matches Some(v) && p@ == v,
                    None => o.res is None,
                })
            }),
    {
        let ghost o = crate::parser::grammar::spec_parse_single_param(
            old(self).toks(),
            old(self).pos(),
        );
        let expected_ident = vec![Expected::Token(TokenKind::Identifier)];
        proof {
            assert(expected_ident@.map_values(|e: Expected| e@) =~= seq![ExpectedV::Token(
                TokenKind::Identifier,
            )]);
        }
        if !self.check(expected_ident) {
            proof {
                assert(self.errs() =~= old(self).errs() + o.errs);
            }
            return None;
        }

        let name = match self.current_token().literal.get_identifier() {
            Some(s) => s,
            None => {
                proof {
                    assert(false);
                }
                return None;
            },
        };
        let name_span = self.current_token().span;
        self.advance();

        let expected_colon = vec![Expected::Token(TokenKind::Colon)];
        proof {
            assert(expected_colon@.map_values(|e: Expected| e@) =~= seq![ExpectedV::Token(
                TokenKind::Colon,
            )]);
        }
        if !self.expect(expected_colon) {
            proof {
                assert(self.errs() =~= old(self).errs() + o.errs);
            }
            return None;
        }

        let annotated_type = match self.try_parse_value_type() {
            Some(t) => t,
            None => {
                proof {
                    assert(self.errs() =~= old(self).errs() + o.errs);
                }
                return None;
            },
        };
        let r = Some(FunctionParameter { name, annotated_type, span: name_span });
        proof {
            assert(self.errs() =~= old(self).errs() + o.errs);
        }
        r
    }

    /// Parses a parenthesised parameter list: `()` is empty; otherwise
    /// one parameter, then `, parameter` while commas arrive, with an
    /// optional trailing comma before the closing `)`.
    #[verifier::loop_isolation(false)]
    fn parse_function_parameter(&mut self) -> (r: Option<Vec<FunctionParameter>>)
        requires
            old(self).wf(),
        ensures
            final(self).wf(),
            final(self).toks() == old(self).toks(),
            final(self).pos() >= old(self).pos(),
            r is Some ==> final(self).pos() > old(self).pos(),
            ({
                let o = spec_parse_param_list(old(self).toks(), old(self).pos());
                &&& final(self).pos() == o.pos
                &&& final(self).errs() == old(self).errs() + o.errs
                &&& (match r {
                    Some(ps) => o.res matches Some(v) && params_view(ps@) == v,
                    None => o.res is None,
                })
            }),
    {
        let ghost toks = self.toks();
        let ghost pos0 = self.pos();
        let ghost errs0 = self.errs();
        let ghost o = spec_parse_param_list(toks, pos0);

        let expected_lp = vec![Expected::Token(TokenKind::LeftParenthesis)];
        proof {
            assert(expected_lp@.map_values(|e: Expected| e@) =~= seq![ExpectedV::Token(
                TokenKind::LeftParenthesis,
            )]);
        }
        if !self.expect(expected_lp) {
            proof {
                assert(self.errs() =~= errs0 + o.errs);
            }
            return None;
        }

        let mut params: Vec<FunctionParameter> = Vec::new();

        if self.current_token_kind() == TokenKind::RightParenthesis {
            self.advance();
            proof {
                assert(params_view(params@) =~= Seq::<FunctionParameterV>::empty());
                assert(self.errs() =~= errs0 + o.errs);
            }
            return Some(params);
        }

        let first = match self.parse_single_param() {
            Some(p) => p,
            None => {
                proof {
                    assert(self.errs() =~= errs0 + o.errs);
                }
                return None;
            },
        };
        params.push(first);
        proof {
            assert(params_view(params@) =~= seq![params@[0]@]);
        }

        let ghost errs_ls = self.errs();
        let ghost o_loop = spec_params_loop(toks, params_view(params@), self.pos());

        while !self.is_at_eof() && self.current_token_kind() == TokenKind::Comma
            && self.peek_token_kind() != TokenKind::RightParenthesis
            invariant
                self.wf(),
                self.toks() == toks,
                self.pos() > pos0,
                ({
                    let l = spec_params_loop(toks, params_view(params@), self.pos());
                    &&& l.res == o_loop.res
                    &&& l.pos == o_loop.pos
                    &&& self.errs() + l.errs == errs_ls + o_loop.errs
                }),
            decreases self.toks().len() - self.pos(), 8int,
        {
            let ghost l_now = spec_params_loop(toks, params_view(params@), self.pos());
            let ghost errs_it = self.errs();
            self.advance();

            let ghost p_spec = crate::parser::grammar::spec_parse_single_param(
                toks,
                self.pos(),
            );
            let p = match self.parse_single_param() {
                Some(p) => p,
                None => {
                    proof {
                        assert(l_now.errs == p_spec.errs);
                        assert(self.errs() =~= errs_it + l_now.errs);
                        assert(self.errs() =~= errs0 + o.errs);
                    }
                    return None;
                },
            };
            let ghost params_prev = params@;
            params.push(p);
            proof {
                assert(params_view(params@) =~= params_view(params_prev).push(
                    params@[params@.len() - 1]@,
                ));
                let l_next = spec_params_loop(toks, params_view(params@), self.pos());
                assert(l_now.errs == p_spec.errs + l_next.errs);
                assert(self.errs() + l_next.errs =~= errs_it + l_now.errs);
            }
        }

        // a comma directly before `)` ends the list without another
        // parameter
        if !self.is_at_eof() && self.current_token_kind() == TokenKind::Comma {
            self.advance();
        }

        proof {
            let l = spec_params_loop(toks, params_view(params@), self.pos());
            assert(l.res == Some(params_view(params@)) && l.pos == self.pos() && l.errs.len()
                == 0);
            assert(self.errs() =~= self.errs() + l.errs);
        }

        let expected_rp = vec![Expected::Token(TokenKind::RightParenthesis)];
        proof {
            assert(expected_rp@.map_values(|e: Expected| e@) =~= seq![ExpectedV::Token(
                TokenKind::RightParenthesis,
            )]);
        }
        if !self.expect(expected_rp) {
            proof {
                assert(self.errs() =~= errs0 + o.errs);
            }
            return None;
        }

        proof {
            assert(self.errs() =~= errs0 + o.errs);
        }
        Some(params)
    }

    /// Parses a block: `'{' statement* '}'`, failing as a whole on the
    /// first failing statement, spanning from `{` to `}` inclusive.
    #[verifier::loop_isolation(false)]
    #[verifier::rlimit(100)]
    fn parse_block_statement(&mut self) -> (r: Option<Statement>)
        requires
            old(self).wf(),
        ensures
            final(self).wf(),
            final(self).toks() == old(self).toks(),
            final(self).pos() >= old(self).pos(),
            r is Some ==> final(self).pos() > old(self).pos(),
            ({
                let o = spec_parse_block(old(self).toks(), old(self).pos());
                &&& final(self).pos() == o.pos
                &&& final(self).errs() == old(self).errs() + o.errs
                &&& opt_stmt_agrees(r, o.res)
            }),
        decreases old(self).toks().len() - old(self).pos(), 13int,
    {
        let ghost toks = self.toks();
        let ghost pos0 = self.pos();
        let ghost errs0 = self.errs();
        let ghost o = spec_parse_block(toks, pos0);

        let lb_span = self.current_token().span;

        let expected_lb = vec![Expected::Token(TokenKind::LeftBrace)];
        proof {
            assert(expected_lb@.map_values(|e: Expected| e@) =~= seq![ExpectedV::Token(
                TokenKind::LeftBrace,
            )]);
        }
        if !self.expect(expected_lb) {
            proof {
                assert(self.errs() =~= errs0 + o.errs);
            }
            return None;
        }

        let mut stmts: Vec<Box<Statement>> = Vec::new();
        proof {
            assert(stmts_view(stmts@) =~= Seq::<StatementV>::empty());
        }

        let ghost errs_ls = self.errs();
        let ghost o_loop = spec_block_loop(toks, stmts_view(stmts@), self.pos());

        while !self.is_at_eof() && self.current_token_kind() != TokenKind::RightBrace
            invariant
                self.wf(),
                self.toks() == toks,
                self.pos() > pos0,
                ({
                    let l = spec_block_loop(toks, stmts_view(stmts@), self.pos());
                    &&& l.res == o_loop.res
                    &&& l.pos == o_loop.pos
                    &&& self.errs() + l.errs == errs_ls + o_loop.errs
                }),
            decreases self.toks().len() - self.pos(), 12int,
        {
            let ghost l_now = spec_block_loop(toks, stmts_view(stmts@), self.pos());
            let ghost errs_it = self.errs();
            let ghost s_spec = spec_try_parse_stmt(toks, self.pos());
            let stmt = match self.try_parse_stmt() {
                Some(s) => s,
                None => {
                    proof {
                        assert(l_now.errs == s_spec.errs);
                        assert(self.errs() =~= errs_it + l_now.errs);
                        assert(self.errs() =~= errs0 + o.errs);
                    }
                    return None;
                },
            };
            let ghost stmts_prev = stmts@;
            stmts.push(Box::new(stmt));
            proof {
                lemma_stmts_view_push(stmts_prev, stmts@[stmts@.len() - 1]);
                assert(stmts@ =~= stmts_prev.push(stmts@[stmts@.len() - 1]));
                let l_next = spec_block_loop(toks, stmts_view(stmts@), self.pos());
                assert(l_now.errs == s_spec.errs + l_next.errs);
                assert(self.errs() + l_next.errs =~= errs_it + l_now.errs);
            }
        }

        proof {
            let l = spec_block_loop(toks, stmts_view(stmts@), self.pos());
            assert(l.res == Some(stmts_view(stmts@)) && l.pos == self.pos() && l.errs.len()
                == 0);
            assert(self.errs() =~= self.errs() + l.errs);
        }

        let rb_span = self.current_token().span;

        let expected_rb = vec![Expected::Token(TokenKind::RightBrace)];
        proof {
            assert(expected_rb@.map_values(|e: Expected| e@) =~= seq![ExpectedV::Token(
                TokenKind::RightBrace,
            )]);
        }
        if !self.expect(expected_rb) {
            proof {
                assert(self.errs() =~= errs0 + o.errs);
            }
            return None;
        }

        let full_span = Span {
            ln_start: lb_span.ln_start,
            ln_end: rb_span.ln_end,
            col_start: lb_span.col_start,
            col_end: rb_span.col_end,
        };
        let r = Some(Stmt::BlockStatement { statements: stmts }.spanned(full_span));
        proof {
            assert(self.errs() =~= errs0 + o.errs);
        }
        r
    }

    /// Parses a function declaration:
    /// `'fn' identifier '(' parameters ')' ':' return_type block`,
    /// spanning from the keyword to the end of the body.
    #[verifier::rlimit(60)]
    pub fn parse_function_declaration(&mut self) -> (r: Option<Statement>)
        requires
            old(self).wf(),
        ensures
            final(self).wf(),
            final(self).toks() == old(self).toks(),
            final(self).pos() >= old(self).pos(),
            r is Some ==> final(self).pos() > old(self).pos(),
            ({
                let o = spec_parse_fn_decl(old(self).toks(), old(self).pos());
                &&& final(self).pos() == o.pos
                &&& final(self).errs() == old(self).errs() + o.errs
                &&& opt_stmt_agrees(r, o.res)
            }),
        decreases old(self).toks().len() - old(self).pos(), 10int,
    {
        let ghost toks = self.toks();
        let ghost pos0 = self.pos();
        let ghost errs0 = self.errs();
        let ghost o = spec_parse_fn_decl(toks, pos0);

        let fn_tok_span = self.current_token().span;
        let pos_before = self.cursor();
        self.advance();
        if self.cursor() == pos_before {
            // the cursor already stood on the last token
            proof {
                assert(self.errs() =~= errs0 + o.errs);
            }
            return None;
        }

        let expected_ident = vec![Expected::Token(TokenKind::Identifier)];
        proof {
            assert(expected_ident@.map_values(|e: Expected| e@) =~= seq![ExpectedV::Token(
                TokenKind::Identifier,
            )]);
        }
        if !self.check(expected_ident) {
            proof {
                assert(self.errs() =~= errs0 + o.errs);
            }
            return None;
        }

        let fn_name = match self.current_token().literal.get_identifier() {
            Some(s) => s,
            None => {
                proof {
                    assert(false);
                }
                return None;
            },
        };
        self.advance();

        let parameters = match self.parse_function_parameter() {
            Some(ps) => ps,
            None => {
                proof {
                    assert(self.errs() =~= errs0 + o.errs);
                }
                return None;
            },
        };

        let expected_colon = vec![Expected::Token(TokenKind::Colon)];
        proof {
            assert(expected_colon@.map_values(|e: Expected| e@) =~= seq![ExpectedV::Token(
                TokenKind::Colon,
            )]);
        }
        if !self.expect(expected_colon) {
            proof {
                assert(self.errs() =~= errs0 + o.errs);
            }
            return None;
        }

        let return_type = match self.try_parse_return_type() {
            Some(rt) => rt,
            None => {
                proof {
                    assert(self.errs() =~= errs0 + o.errs);
                }
                return None;
            },
        };
        let body = match self.parse_block_statement() {
            Some(b) => b,
            None => {
                proof {
                    assert(self.errs() =~= errs0 + o.errs);
                }
                return None;
            },
        };
        let body_span = body.span;

        let full_span = Span {
            ln_start: fn_tok_span.ln_start,
            ln_end: body_span.ln_end,
            col_start: fn_tok_span.col_start,
            col_end: body_span.col_end,
        };

        let r = Some(
            Stmt::FunctionDeclaration {
                name: fn_name,
                parameters,
                return_type,
                body: Box::new(body),
            }.spanned(full_span),
        );
        proof {
            assert(self.errs() =~= errs0 + o.errs);
        }
        r
    }
}

/// Pushing onto a statement sequence appends its view.
pub proof fn lemma_stmts_view_push(ss: Seq<Box<Statement>>, b: Box<Statement>)
    ensures
        stmts_view(ss.push(b)) == stmts_view(ss).push((*b)@),
{
    assert(ss.push(b).drop_last() =~= ss);
    assert(ss.push(b).last() == b);
}

} // verus!
