//! The Pratt parser: from a flat token stream to a program tree, with
//! table-driven prefix/infix/statement dispatch written as exhaustive
//! matches, and depth-aware panic-mode recovery. What every function
//! here produces is pinned to the parse model in [`grammar`].

pub mod expressions;
pub mod grammar;
pub mod precedence_table;
pub mod statements;
pub mod types;

use vstd::prelude::*;

use crate::ast::{Statement, ZastProgram};
use crate::error_handler::zast_errors::{Expected, ZastError};
use crate::error_handler::ZastErrorCollector;
use crate::parser::grammar::{
    any_expected_matches, at_eof, kind_at, spec_advance, spec_check, spec_sync,
    spec_try_parse_stmt, tok_at, valid_pos, wf_tokens,
};
use crate::parser::precedence_table::{spec_token_prec, Precedence};
use crate::tokens::{Token, TokenKind, TokenV};

verus! {

/// The views of a token sequence.
pub open spec fn token_views(ts: Seq<Token>) -> Seq<TokenV> {
    ts.map_values(|t: Token| t@)
}

/// The Pratt parser. It owns the token stream, a cursor into it, and
/// the collector of every diagnostic recorded so far.
pub struct ZastParser {
    tokens: Vec<Token>,
    current_token_ptr: usize,
    errors: ZastErrorCollector,
}

impl ZastParser {
    /// The views of the tokens this parser reads.
    pub closed spec fn toks(&self) -> Seq<TokenV> {
        token_views(self.tokens@)
    }

    /// Where the cursor stands.
    pub closed spec fn pos(&self) -> int {
        self.current_token_ptr as int
    }

    /// The views of the diagnostics recorded so far, in order.
    pub closed spec fn errs(&self) -> Seq<crate::error_handler::zast_errors::ZastErrorV> {
        self.errors@
    }

    /// The parser's invariant: a well-formed stream and a cursor on a
    /// token.
    pub open spec fn wf(&self) -> bool {
        wf_tokens(self.toks()) && valid_pos(self.toks(), self.pos())
    }

    /// A new parser over a scanner's output, with the cursor on the
    /// first token and nothing recorded.
    pub fn new(tokens: Vec<Token>) -> (r: Self)
        requires
            wf_tokens(token_views(tokens@)),
        ensures
            r.wf(),
            r.toks() == token_views(tokens@),
            r.pos() == 0,
            r.errs().len() == 0,
    {
        ZastParser { tokens, current_token_ptr: 0, errors: ZastErrorCollector::new() }
    }

    /// Where the cursor stands, as an index into the stream.
    pub(crate) fn cursor(&self) -> (r: usize)
        ensures
            r as int == self.pos(),
    {
        self.current_token_ptr
    }

    /// The token under the cursor.
    pub(crate) fn current_token(&self) -> (r: &Token)
        requires
            self.wf(),
        ensures
            r@ == tok_at(self.toks(), self.pos()),
    {
        &self.tokens[self.current_token_ptr]
    }

    /// The token `n` positions ahead, or the current token where that
    /// would run past the stream.
    pub(crate) fn peek_at(&self, n: usize) -> (r: &Token)
        requires
            self.wf(),
        ensures
            self.pos() + n < self.toks().len() ==> r@ == tok_at(self.toks(), self.pos() + n),
            self.pos() + n >= self.toks().len() ==> r@ == tok_at(self.toks(), self.pos()),
    {
        proof {
            assert(self.toks().len() == self.tokens@.len());
        }
        if n >= self.tokens.len() - self.current_token_ptr {
            return &self.tokens[self.current_token_ptr];
        }
        &self.tokens[self.current_token_ptr + n]
    }

    /// The token immediately after the current one.
    pub(crate) fn peek_token(&self) -> (r: &Token)
        requires
            self.wf(),
        ensures
            self.pos() + 1 < self.toks().len() ==> r@ == tok_at(self.toks(), self.pos() + 1),
            self.pos() + 1 >= self.toks().len() ==> r@ == tok_at(self.toks(), self.pos()),
    {
        self.peek_at(1)
    }

    /// The kind of the token after the current one.
    pub(crate) fn peek_token_kind(&self) -> (r: TokenKind)
        requires
            self.wf(),
        ensures
            r == kind_at(self.toks(), spec_advance(self.toks(), self.pos())),
    {
        self.peek_token().kind
    }

    /// The kind of the token under the cursor.
    pub(crate) fn current_token_kind(&self) -> (r: TokenKind)
        requires
            self.wf(),
        ensures
            r == kind_at(self.toks(), self.pos()),
    {
        self.current_token().kind
    }

    /// The effective binding power of the token under the cursor: its
    /// table rank, or zero without an entry.
    pub(crate) fn current_token_precedence(&self) -> (r: u8)
        requires
            self.wf(),
        ensures
            r == spec_token_prec(kind_at(self.toks(), self.pos())),
    {
        match Precedence::get_precedence(self.current_token_kind()) {
            Some(p) => p.value(),
            None => 0,
        }
    }

    /// Moves the cursor one token forward; it never leaves the stream.
    pub(crate) fn advance(&mut self)
        requires
            old(self).wf(),
        ensures
            final(self).wf(),
            final(self).toks() == old(self).toks(),
            final(self).errs() == old(self).errs(),
            final(self).pos() == spec_advance(old(self).toks(), old(self).pos()),
    {
        let n = self.tokens.len();
        proof {
            assert(self.toks().len() == self.tokens@.len());
        }
        if self.current_token_ptr < n - 1 {
            self.current_token_ptr = self.current_token_ptr + 1;
        }
    }

    /// Whether the cursor stands on the end-of-stream token.
    pub(crate) fn is_at_eof(&self) -> (r: bool)
        requires
            self.wf(),
        ensures
            r == at_eof(self.toks(), self.pos()),
    {
        match self.current_token_kind() {
            TokenKind::Eof => true,
            _ => false,
        }
    }

    /// Records a diagnostic.
    pub(crate) fn throw_error(&mut self, err: ZastError)
        requires
            old(self).wf(),
        ensures
            final(self).wf(),
            final(self).toks() == old(self).toks(),
            final(self).pos() == old(self).pos(),
            final(self).errs() == old(self).errs().push(err@),
    {
        self.errors.add_error(err);
    }

    /// Parses the whole token stream: one statement attempt after
    /// another until the end of the stream, resynchronising after each
    /// failed attempt. The parse succeeds exactly when no diagnostic
    /// was recorded during the whole pass; on failure the collector is
    /// handed out with every diagnostic, in the order recorded.
    #[verifier::loop_isolation(false)]
    #[verifier::rlimit(60)]
    pub fn parse_program(&mut self) -> (r: Result<ZastProgram, ZastErrorCollector>)
        requires
            old(self).wf(),
        ensures
            final(self).wf(),
            final(self).toks() == old(self).toks(),
            at_eof(final(self).toks(), final(self).pos()),
            final(self).errs().len() == 0,
            ({
                let o = grammar::spec_program_loop(
                    old(self).toks(),
                    Seq::<crate::ast::StatementV>::empty(),
                    old(self).pos(),
                );
                &&& final(self).pos() == o.pos
                &&& (match r {
                    Ok(p) => (old(self).errs() + o.errs).len() == 0 && p@ == o.body,
                    Err(c) => (old(self).errs() + o.errs).len() > 0 && c@ == old(self).errs()
                        + o.errs,
                })
            }),
    {
        let ghost toks = self.toks();
        let ghost pos0 = self.pos();
        let ghost errs0 = self.errs();
        let ghost o = grammar::spec_program_loop(
            toks,
            Seq::<crate::ast::StatementV>::empty(),
            pos0,
        );

        let mut body: Vec<Statement> = Vec::new();
        proof {
            assert(body@.map_values(|s: Statement| s@) =~= Seq::<crate::ast::StatementV>::empty());
        }

        while !self.is_at_eof()
            invariant
                self.wf(),
                self.toks() == toks,
                self.pos() >= pos0,
                ({
                    let l = grammar::spec_program_loop(
                        toks,
                        body@.map_values(|s: Statement| s@),
                        self.pos(),
                    );
                    &&& l.body == o.body
                    &&& l.pos == o.pos
                    &&& self.errs() + l.errs == errs0 + o.errs
                }),
            decreases self.toks().len() - self.pos(), 15int,
        {
            let ghost l_now = grammar::spec_program_loop(
                toks,
                body@.map_values(|s: Statement| s@),
                self.pos(),
            );
            let ghost pos_it = self.pos();
            let ghost errs_it = self.errs();
            let ghost s_spec = spec_try_parse_stmt(toks, pos_it);

            let node = self.try_parse_stmt();
            match node {
                None => {
                    self.sync_tokens();
                    proof {
                        let l_next = grammar::spec_program_loop(
                            toks,
                            body@.map_values(|s: Statement| s@),
                            self.pos(),
                        );
                        assert(l_now.errs == s_spec.errs + l_next.errs);
                        assert(self.errs() + l_next.errs =~= errs_it + l_now.errs);
                    }
                },
                Some(stmt) => {
                    let ghost body_prev = body@;
                    body.push(stmt);
                    proof {
                        assert(body@.map_values(|s: Statement| s@) =~= body_prev.map_values(
                            |s: Statement| s@,
                        ).push(body@[body@.len() - 1]@));
                        let l_next = grammar::spec_program_loop(
                            toks,
                            body@.map_values(|s: Statement| s@),
                            self.pos(),
                        );
                        assert(l_now.errs == s_spec.errs + l_next.errs);
                        assert(self.errs() + l_next.errs =~= errs_it + l_now.errs);
                    }
                },
            }
        }
        proof {
            let l = grammar::spec_program_loop(
                toks,
                body@.map_values(|s: Statement| s@),
                self.pos(),
            );
            assert(l.body == body@.map_values(|s: Statement| s@) && l.pos == self.pos()
                && l.errs.len() == 0);
            assert(self.errs() =~= self.errs() + l.errs);
            assert(self.errs() =~= errs0 + o.errs);
        }

        if self.errors.has_errors() {
            Err(self.errors.take())
        } else {
            proof {
                assert((errs0 + o.errs).len() == 0);
                assert(self.errs() =~= Seq::<
                    crate::error_handler::zast_errors::ZastErrorV,
                >::empty());
            }
            Ok(self.finish(body))
        }
    }

    /// Wraps the parsed statement list into a program.
    fn finish(&self, body: Vec<Statement>) -> (r: ZastProgram)
        ensures
            r@ == body@.map_values(|s: Statement| s@),
    {
        ZastProgram { body }
    }

    /// Resynchronises after a failed statement: tokens are discarded
    /// until a safe boundary, respecting nesting depth so that a
    /// delimiter closing an inner construct is never mistaken for the
    /// statement boundary. A `;` or a closing delimiter at depth zero
    /// is consumed and recovery stops; the end of the stream stops it
    /// unconditionally.
    #[verifier::loop_isolation(false)]
    fn sync_tokens(&mut self)
        requires
            old(self).wf(),
        ensures
            final(self).wf(),
            final(self).toks() == old(self).toks(),
            final(self).errs() == old(self).errs(),
            final(self).pos() == spec_sync(old(self).toks(), old(self).pos(), 0),
            final(self).pos() >= old(self).pos(),
            !at_eof(old(self).toks(), old(self).pos()) ==> final(self).pos() > old(self).pos(),
    {
        let ghost toks = self.toks();
        let ghost pos0 = self.pos();
        let mut depth: usize = 0;

        while !self.is_at_eof()
            invariant
                self.wf(),
                self.toks() == toks,
                self.errs() == old(self).errs(),
                self.pos() >= pos0,
                depth <= self.pos() - pos0,
                spec_sync(toks, self.pos(), depth as int) == spec_sync(toks, pos0, 0),
            decreases self.toks().len() - self.pos(),
        {
            let n = self.tokens.len();
            proof {
                assert(self.toks().len() == self.tokens@.len());
                assert(depth < n);
            }
            match self.current_token_kind() {
                TokenKind::LeftParenthesis | TokenKind::LeftBrace => {
                    depth = depth + 1;
                    self.advance();
                },
                TokenKind::RightParenthesis | TokenKind::RightBrace => {
                    if depth == 0 {
                        self.advance();
                        return;
                    }
                    depth = depth - 1;
                    self.advance();
                },
                TokenKind::Semicolon => {
                    self.advance();
                    if depth == 0 {
                        return;
                    }
                },
                TokenKind::Eof => {
                    return;
                },
                _ => {
                    self.advance();
                },
            }
        }
    }

    /// Tests the token under the cursor against an expected set without
    /// moving: a mismatch records an `ExpectedToken` diagnostic.
    pub(crate) fn check(&mut self, expected: Vec<Expected>) -> (r: bool)
        requires
            old(self).wf(),
        ensures
            final(self).wf(),
            final(self).toks() == old(self).toks(),
            final(self).pos() == old(self).pos(),
            ({
                let c = spec_check(
                    old(self).toks(),
                    old(self).pos(),
                    expected@.map_values(|e: Expected| e@),
                );
                r == c.0 && final(self).errs() == old(self).errs() + c.1
            }),
    {
        let ghost expected_v = expected@.map_values(|e: Expected| e@);
        let tok_kind = self.current_token_kind();
        let tok_span = self.current_token().span;

        let mut found = false;
        let mut i: usize = 0;
        while i < expected.len()
            invariant
                0 <= i <= expected.len(),
                expected_v == expected@.map_values(|e: Expected| e@),
                found == exists|j: int|
                    0 <= j < i && grammar::expected_matches(#[trigger] expected_v[j], tok_kind),
            decreases expected.len() - i,
        {
            proof {
                assert(expected_v[i as int] == expected@[i as int]@);
            }
            match &expected[i] {
                Expected::Token(kind) => {
                    if *kind == tok_kind {
                        found = true;
                    }
                },
                Expected::Concept(_) => {},
            }
            i = i + 1;
        }

        if found {
            proof {
                assert(any_expected_matches(expected_v, tok_kind));
            }
            return true;
        }

        proof {
            assert(!any_expected_matches(expected_v, tok_kind));
        }
        self.errors.add_error(
            ZastError::ExpectedToken {
                span: tok_span,
                expected_tokens: expected,
                found_token: tok_kind,
            },
        );
        proof {
            assert(final(self).errs() =~= old(self).errs() + spec_check(
                old(self).toks(),
                old(self).pos(),
                expected_v,
            ).1);
        }
        false
    }

    /// Tests as [`ZastParser::check`] does, and moves past the token on
    /// a match.
    pub(crate) fn expect(&mut self, expected: Vec<Expected>) -> (r: bool)
        requires
            old(self).wf(),
        ensures
            final(self).wf(),
            final(self).toks() == old(self).toks(),
            ({
                let c = spec_check(
                    old(self).toks(),
                    old(self).pos(),
                    expected@.map_values(|e: Expected| e@),
                );
                &&& r == c.0
                &&& final(self).errs() == old(self).errs() + c.1
                &&& final(self).pos() == if c.0 {
                    spec_advance(old(self).toks(), old(self).pos())
                } else {
                    old(self).pos()
                }
            }),
    {
        if self.check(expected) {
            self.advance();
            true
        } else {
            false
        }
    }
}

} // verus!
