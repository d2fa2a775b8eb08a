//! The expression engine: prefix rules, the one infix rule, and the
//! precedence-climbing loop that drives them.

use vstd::prelude::*;

use crate::ast::{Expr, Expression, ExpressionV};
use crate::error_handler::zast_errors::{Expected, ZastError};
use crate::parser::grammar::{
    at_eof, has_led, kind_at, spec_led_loop, spec_parse_addr, spec_parse_binary,
    spec_parse_deref, spec_parse_expr, spec_parse_grouping, spec_parse_nud,
};
use crate::parser::precedence_table::{spec_prec_value, spec_token_prec, Precedence};
use crate::parser::ZastParser;
use crate::tokens::{Span, TokenKind};

verus! {

/// Whether a returned expression agrees with a model result.
pub open spec fn opt_expr_agrees(r: Option<Expression>, m: Option<ExpressionV>) -> bool {
    match r {
        Some(e) => m matches Some(v) && e@ == v,
        None => m is None,
    }
}

/// Whether a token kind has an infix rule, as [`has_led`] says.
fn has_led_token(k: TokenKind) -> (r: bool)
    ensures
        r == has_led(k),
{
    match k {
        TokenKind::Plus | TokenKind::Minus | TokenKind::Multiply | TokenKind::Divide => true,
        _ => false,
    }
}

impl ZastParser {
    /// Parses an expression by precedence climbing: the prefix rule of
    /// the current token, then infix operators while they bind tighter
    /// than `precedence`. Without a prefix rule it records
    /// `UnexpectedToken` and fails.
    #[verifier::loop_isolation(false)]
    pub fn try_parse_expr(&mut self, precedence: Precedence) -> (r: Option<Expression>)
        requires
            old(self).wf(),
        ensures
            final(self).wf(),
            final(self).toks() == old(self).toks(),
            final(self).pos() >= old(self).pos(),
            r is Some ==> final(self).pos() > old(self).pos(),
            ({
                let o = spec_parse_expr(
                    old(self).toks(),
                    old(self).pos(),
                    spec_prec_value(precedence),
                );
                &&& final(self).pos() == o.pos
                &&& final(self).errs() == old(self).errs() + o.errs
                &&& opt_expr_agrees(r, o.res)
            }),
        decreases old(self).toks().len() - old(self).pos(), 4int,
    {
        let ghost toks = self.toks();
        let ghost pos0 = self.pos();
        let ghost errs0 = self.errs();
        let prec: u8 = precedence.value();
        let kind = self.current_token_kind();

        let nud_result = match kind {
            TokenKind::Multiply => self.parse_deref_expr(),
            TokenKind::Ampersand => self.parse_addr_expr(),
            TokenKind::Integer => self.parse_integer_literal(),
            TokenKind::Float => self.parse_float_literal(),
            TokenKind::Identifier => self.parse_identifier_literal(),
            TokenKind::LeftParenthesis => self.parse_grouping_expression(),
            _ => {
                let tok_span = self.current_token().span;
                self.throw_error(ZastError::UnexpectedToken { span: tok_span, token_kind: kind });
                proof {
                    let o = spec_parse_expr(toks, pos0, prec as u8);
                    assert(self.errs() =~= errs0 + o.errs);
                }
                return None;
            },
        };

        let ghost n = spec_parse_nud(toks, pos0);
        let mut left = match nud_result {
            Some(l) => l,
            None => {
                return None;
            },
        };

        let ghost errs_mid = self.errs();
        let ghost o_led = spec_led_loop(toks, left@, self.pos(), prec as u8);

        while !self.is_at_eof() && prec < self.current_token_precedence() && has_led_token(
            self.current_token_kind(),
        )
            invariant
                self.wf(),
                self.toks() == toks,
                self.pos() > pos0,
                errs_mid == errs0 + n.errs,
                ({
                    let l = spec_led_loop(toks, left@, self.pos(), prec as u8);
                    &&& l.res == o_led.res
                    &&& l.pos == o_led.pos
                    &&& self.errs() + l.errs == errs_mid + o_led.errs
                }),
            decreases self.toks().len() - self.pos(), 3int,
        {
            let ghost l_now = spec_led_loop(toks, left@, self.pos(), prec as u8);
            let ghost pos_it = self.pos();
            let ghost errs_it = self.errs();
            let ghost b = spec_parse_binary(toks, left@, pos_it);

            let next = self.parse_binary_expr(left);
            match next {
                Some(nl) => {
                    left = nl;
                    proof {
                        let l_next = spec_led_loop(toks, left@, self.pos(), prec as u8);
                        assert(l_now.errs == b.errs + l_next.errs);
                        assert(self.errs() + l_next.errs =~= errs_it + l_now.errs);
                    }
                },
                None => {
                    proof {
                        assert(l_now.errs == b.errs);
                        assert(self.errs() =~= errs_it + l_now.errs);
                        let o = spec_parse_expr(toks, pos0, prec as u8);
                        assert(o.errs == n.errs + o_led.errs);
                        assert(self.errs() =~= errs0 + o.errs);
                    }
                    return None;
                },
            }
        }
        proof {
            let l = spec_led_loop(toks, left@, self.pos(), prec as u8);
            assert(l.res == Some(left@) && l.pos == self.pos() && l.errs.len() == 0);
            let o = spec_parse_expr(toks, pos0, prec as u8);
            assert(o.errs == n.errs + o_led.errs);
            assert(self.errs() =~= self.errs() + l.errs);
            assert(self.errs() =~= errs0 + o.errs);
        }
        Some(left)
    }

    /// Parses a unary dereference, `*expr`: the operator consumed, the
    /// operand at unary power, the node spanning both.
    pub fn parse_deref_expr(&mut self) -> (r: Option<Expression>)
        requires
            old(self).wf(),
        ensures
            final(self).wf(),
            final(self).toks() == old(self).toks(),
            final(self).pos() >= old(self).pos(),
            r is Some ==> final(self).pos() > old(self).pos(),
            ({
                let o = spec_parse_deref(old(self).toks(), old(self).pos());
                &&& final(self).pos() == o.pos
                &&& final(self).errs() == old(self).errs() + o.errs
                &&& opt_expr_agrees(r, o.res)
            }),
        decreases old(self).toks().len() - old(self).pos(), 2int,
    {
        let op_span = self.current_token().span;
        let pos_before = self.cursor();
        self.advance();
        if self.cursor() == pos_before {
            // the cursor already stood on the last token: no operand
            proof {
                assert(self.errs() =~= old(self).errs() + spec_parse_deref(
                    old(self).toks(),
                    old(self).pos(),
                ).errs);
            }
            return None;
        }

        let operand = match self.try_parse_expr(Precedence::Unary) {
            Some(e) => e,
            None => {
                return None;
            },
        };
        let full_span = Span {
            col_start: op_span.col_start,
            col_end: operand.span.col_end,
            ln_start: op_span.ln_start,
            ln_end: operand.span.ln_end,
        };
        Some(Expr::Dereference(Box::new(operand)).spanned(full_span))
    }

    /// Parses a unary address-of, `&expr`: the operator consumed, the
    /// operand at unary power, the node spanning both.
    pub fn parse_addr_expr(&mut self) -> (r: Option<Expression>)
        requires
            old(self).wf(),
        ensures
            final(self).wf(),
            final(self).toks() == old(self).toks(),
            final(self).pos() >= old(self).pos(),
            r is Some ==> final(self).pos() > old(self).pos(),
            ({
                let o = spec_parse_addr(old(self).toks(), old(self).pos());
                &&& final(self).pos() == o.pos
                &&& final(self).errs() == old(self).errs() + o.errs
                &&& opt_expr_agrees(r, o.res)
            }),
        decreases old(self).toks().len() - old(self).pos(), 2int,
    {
        let op_span = self.current_token().span;
        let pos_before = self.cursor();
        self.advance();
        if self.cursor() == pos_before {
            // the cursor already stood on the last token: no operand
            proof {
                assert(self.errs() =~= old(self).errs() + spec_parse_addr(
                    old(self).toks(),
                    old(self).pos(),
                ).errs);
            }
            return None;
        }

        let operand = match self.try_parse_expr(Precedence::Unary) {
            Some(e) => e,
            None => {
                return None;
            },
        };
        let full_span = Span {
            col_start: op_span.col_start,
            col_end: operand.span.col_end,
            ln_start: op_span.ln_start,
            ln_end: operand.span.ln_end,
        };
        Some(Expr::Address(Box::new(operand)).spanned(full_span))
    }

    /// Parses an integer literal token into a leaf node spanning it.
    pub fn parse_integer_literal(&mut self) -> (r: Option<Expression>)
        requires
            old(self).wf(),
            kind_at(old(self).toks(), old(self).pos()) == TokenKind::Integer,
        ensures
            final(self).wf(),
            final(self).toks() == old(self).toks(),
            final(self).pos() > old(self).pos(),
            r is Some,
            ({
                let o = spec_parse_nud(old(self).toks(), old(self).pos());
                &&& final(self).pos() == o.pos
                &&& final(self).errs() == old(self).errs() + o.errs
                &&& opt_expr_agrees(r, o.res)
            }),
    {
        let span = self.current_token().span;
        let expr = Expr::IntegerLiteral(self.current_token().literal.get_int().unwrap());
        self.advance();
        proof {
            assert(final(self).errs() =~= old(self).errs() + Seq::<
                crate::error_handler::zast_errors::ZastErrorV,
            >::empty());
        }
        Some(expr.spanned(span))
    }

    /// Parses a float literal token into a leaf node carrying its raw
    /// source text, spanning it.
    pub fn parse_float_literal(&mut self) -> (r: Option<Expression>)
        requires
            old(self).wf(),
            kind_at(old(self).toks(), old(self).pos()) == TokenKind::Float,
        ensures
            final(self).wf(),
            final(self).toks() == old(self).toks(),
            final(self).pos() > old(self).pos(),
            r is Some,
            ({
                let o = spec_parse_nud(old(self).toks(), old(self).pos());
                &&& final(self).pos() == o.pos
                &&& final(self).errs() == old(self).errs() + o.errs
                &&& opt_expr_agrees(r, o.res)
            }),
    {
        let span = self.current_token().span;
        let expr = Expr::FloatLiteral(self.current_token().literal.get_float().unwrap());
        self.advance();
        proof {
            assert(final(self).errs() =~= old(self).errs() + Seq::<
                crate::error_handler::zast_errors::ZastErrorV,
            >::empty());
        }
        Some(expr.spanned(span))
    }

    /// Parses an identifier token into a leaf node spanning it.
    pub fn parse_identifier_literal(&mut self) -> (r: Option<Expression>)
        requires
            old(self).wf(),
            kind_at(old(self).toks(), old(self).pos()) == TokenKind::Identifier,
        ensures
            final(self).wf(),
            final(self).toks() == old(self).toks(),
            final(self).pos() > old(self).pos(),
            r is Some,
            ({
                let o = spec_parse_nud(old(self).toks(), old(self).pos());
                &&& final(self).pos() == o.pos
                &&& final(self).errs() == old(self).errs() + o.errs
                &&& opt_expr_agrees(r, o.res)
            }),
    {
        let span = self.current_token().span;
        let expr = Expr::Identifier(self.current_token().literal.get_identifier().unwrap());
        self.advance();
        proof {
            assert(final(self).errs() =~= old(self).errs() + Seq::<
                crate::error_handler::zast_errors::ZastErrorV,
            >::empty());
        }
        Some(expr.spanned(span))
    }

    /// Parses one infix step: the operator under the cursor consumed,
    /// the right operand parsed at the operator's own binding power,
    /// and the two joined under a binary node spanning both sides.
    pub fn parse_binary_expr(&mut self, left: Expression) -> (r: Option<Expression>)
        requires
            old(self).wf(),
        ensures
            final(self).wf(),
            final(self).toks() == old(self).toks(),
            final(self).pos() >= old(self).pos(),
            !at_eof(old(self).toks(), old(self).pos()) ==> final(self).pos() > old(self).pos(),
            ({
                let o = spec_parse_binary(old(self).toks(), left@, old(self).pos());
                &&& final(self).pos() == o.pos
                &&& final(self).errs() == old(self).errs() + o.errs
                &&& opt_expr_agrees(r, o.res)
            }),
        decreases old(self).toks().len() - old(self).pos(), 2int,
    {
        let op = self.current_token_kind();
        let left_span = left.span;
        let pos_before = self.cursor();
        self.advance();
        if self.cursor() == pos_before {
            // the cursor already stood on the last token: no right side
            proof {
                assert(self.errs() =~= old(self).errs() + spec_parse_binary(
                    old(self).toks(),
                    left@,
                    old(self).pos(),
                ).errs);
            }
            return None;
        }

        let rhs_prec = match Precedence::get_precedence(op) {
            Some(p) => p,
            None => Precedence::Default,
        };
        proof {
            assert(spec_prec_value(rhs_prec) == spec_token_prec(op));
        }
        let right = match self.try_parse_expr(rhs_prec) {
            Some(e) => e,
            None => {
                return None;
            },
        };
        let right_span = right.span;
        let full_span = Span {
            ln_start: left_span.ln_start,
            ln_end: right_span.ln_end,
            col_start: left_span.col_start,
            col_end: right_span.col_end,
        };
        Some(
            Expr::BinaryExpression {
                left: Box::new(left),
                operator: op,
                right: Box::new(right),
            }.spanned(full_span),
        )
    }

    /// Parses a parenthesised group: `(`, the inner expression at
    /// default power, then a required `)`. The group itself adds no
    /// node; the inner expression is returned with its own span.
    pub fn parse_grouping_expression(&mut self) -> (r: Option<Expression>)
        requires
            old(self).wf(),
        ensures
            final(self).wf(),
            final(self).toks() == old(self).toks(),
            final(self).pos() >= old(self).pos(),
            r is Some ==> final(self).pos() > old(self).pos(),
            ({
                let o = spec_parse_grouping(old(self).toks(), old(self).pos());
                &&& final(self).pos() == o.pos
                &&& final(self).errs() == old(self).errs() + o.errs
                &&& opt_expr_agrees(r, o.res)
            }),
        decreases old(self).toks().len() - old(self).pos(), 2int,
    {
        let pos_before = self.cursor();
        self.advance();
        if self.cursor() == pos_before {
            // the cursor already stood on the last token: no inner term
            proof {
                assert(self.errs() =~= old(self).errs() + spec_parse_grouping(
                    old(self).toks(),
                    old(self).pos(),
                ).errs);
            }
            return None;
        }
        let expr = match self.try_parse_expr(Precedence::Default) {
            Some(e) => e,
            None => {
                return None;
            },
        };

        let ghost expected_v = seq![
            crate::error_handler::zast_errors::ExpectedV::Token(TokenKind::RightParenthesis),
        ];
        let expected = vec![Expected::Token(TokenKind::RightParenthesis)];
        proof {
            assert(expected@.map_values(|e: Expected| e@) =~= expected_v);
        }
        if !self.expect(expected) {
            return None;
        }

        Some(expr)
    }
}

} // verus!
