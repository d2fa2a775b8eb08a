//! The parse model: a spec-level account of exactly what the parser
//! produces from a token stream, position by position. Each parsing
//! function of [`crate::parser::ZastParser`] ensures that its result,
//! its cursor movement and the diagnostics it records agree with the
//! corresponding function here.
//!
//! Positions move only forward; a recursive step is therefore guarded by
//! the strict advance of the position it resumes at. Under a
//! well-formed token stream (see [`wf_tokens`]) every guard holds, so
//! the guards never change what the model says about a real parse.

use vstd::prelude::*;

use crate::ast::{ExprV, ExpressionV, FunctionParameterV, StatementV, StmtV};
use crate::error_handler::zast_errors::{ExpectedV, ZastErrorV};
use crate::parser::precedence_table::{spec_prec_value, spec_token_prec, Precedence};
use crate::tokens::{LiteralV, Span, TokenKind, TokenV};
use crate::types::annotated_type::AnnotatedTypeV;
use crate::types::return_type::ReturnTypeV;

verus! {

/// Whether `pos` indexes into the stream.
pub open spec fn valid_pos(toks: Seq<TokenV>, pos: int) -> bool {
    0 <= pos < toks.len()
}

/// The token under the cursor.
pub open spec fn tok_at(toks: Seq<TokenV>, pos: int) -> TokenV {
    toks[pos]
}

/// The kind of the token under the cursor.
pub open spec fn kind_at(toks: Seq<TokenV>, pos: int) -> TokenKind {
    toks[pos].kind
}

/// Where the cursor stands after one advance: it never moves past the
/// last token.
pub open spec fn spec_advance(toks: Seq<TokenV>, pos: int) -> int {
    if pos + 1 < toks.len() {
        pos + 1
    } else {
        pos
    }
}

/// Whether the cursor stands on the end-of-stream token.
pub open spec fn at_eof(toks: Seq<TokenV>, pos: int) -> bool {
    kind_at(toks, pos) == TokenKind::Eof
}

/// The range from the start of `a` to the end of `b`.
pub open spec fn span_union(a: Span, b: Span) -> Span {
    Span { col_start: a.col_start, col_end: b.col_end, ln_start: a.ln_start, ln_end: b.ln_end }
}

/// A token's payload and classification agree, as the scanner promises.
pub open spec fn wf_token(t: TokenV) -> bool {
    &&& (t.kind == TokenKind::Integer <==> t.literal is IntegerValue)
    &&& (t.kind == TokenKind::Float <==> t.literal is FloatValue)
    &&& (t.kind == TokenKind::Identifier <==> t.literal is Identifier)
    &&& (t.kind == TokenKind::String <==> t.literal is StringValue)
}

/// The scanner's output contract: a non-empty stream whose one
/// end-of-stream token stands last, every token well formed.
pub open spec fn wf_tokens(toks: Seq<TokenV>) -> bool {
    &&& toks.len() >= 1
    &&& forall|i: int|
        0 <= i < toks.len() ==> ((#[trigger] toks[i]).kind == TokenKind::Eof <==> i == toks.len()
            - 1)
    &&& forall|i: int| 0 <= i < toks.len() ==> wf_token(#[trigger] toks[i])
}

/// Which token kinds open an expression (have a prefix rule).
pub open spec fn has_nud(k: TokenKind) -> bool {
    match k {
        TokenKind::Multiply | TokenKind::Ampersand | TokenKind::Integer | TokenKind::Float
        | TokenKind::Identifier | TokenKind::LeftParenthesis => true,
        _ => false,
    }
}

/// Which token kinds continue an expression (have an infix rule).
pub open spec fn has_led(k: TokenKind) -> bool {
    match k {
        TokenKind::Plus | TokenKind::Minus | TokenKind::Multiply | TokenKind::Divide => true,
        _ => false,
    }
}

/// Which token kinds open a declaration statement.
pub open spec fn has_stmt_rule(k: TokenKind) -> bool {
    match k {
        TokenKind::Let | TokenKind::Const | TokenKind::Fn => true,
        _ => false,
    }
}

/// The integer payload of a literal; zero when it has none.
pub open spec fn lit_int(l: LiteralV) -> i64 {
    match l {
        LiteralV::IntegerValue(i) => i,
        _ => 0,
    }
}

/// The float source text of a literal; empty when it has none.
pub open spec fn lit_float_text(l: LiteralV) -> Seq<char> {
    match l {
        LiteralV::FloatValue(s) => s,
        _ => Seq::<char>::empty(),
    }
}

/// The identifier name of a literal; empty when it has none.
pub open spec fn lit_ident(l: LiteralV) -> Seq<char> {
    match l {
        LiteralV::Identifier(s) => s,
        _ => Seq::<char>::empty(),
    }
}

/// Whether one expected item matches a token kind: a concrete kind by
/// equality, a named concept never.
pub open spec fn expected_matches(e: ExpectedV, k: TokenKind) -> bool {
    e matches ExpectedV::Token(t) && t == k
}

/// Whether any item of an expected set matches a token kind.
pub open spec fn any_expected_matches(expected: Seq<ExpectedV>, k: TokenKind) -> bool {
    exists|i: int| 0 <= i < expected.len() && expected_matches(#[trigger] expected[i], k)
}

/// What a membership test of the current token against an expected set
/// does: on a mismatch it records one `ExpectedToken` diagnostic. The
/// cursor does not move.
pub open spec fn spec_check(toks: Seq<TokenV>, pos: int, expected: Seq<ExpectedV>) -> (
    bool,
    Seq<ZastErrorV>,
) {
    if any_expected_matches(expected, kind_at(toks, pos)) {
        (true, Seq::<ZastErrorV>::empty())
    } else {
        (
            false,
            seq![
                ZastErrorV::ExpectedToken {
                    span: tok_at(toks, pos).span,
                    expected_tokens: expected,
                    found_token: kind_at(toks, pos),
                },
            ],
        )
    }
}

/// The outcome of one parse attempt: the node it produced if it
/// succeeded, where the cursor stands afterwards, and the diagnostics it
/// recorded, in order.
pub struct ParseOut<T> {
    pub res: Option<T>,
    pub pos: int,
    pub errs: Seq<ZastErrorV>,
}

/// What parsing an expression at minimum binding power `minp` produces:
/// a prefix rule for the current token, then infix steps while the
/// binding power of the operator ahead exceeds `minp`. Without a prefix
/// rule it records `UnexpectedToken` and fails.
pub open spec fn spec_parse_expr(toks: Seq<TokenV>, pos: int, minp: u8) -> ParseOut<ExpressionV>
    decreases toks.len() - pos, 4int,
    when valid_pos(toks, pos)
{
    if !has_nud(kind_at(toks, pos)) {
        ParseOut {
            res: Option::<ExpressionV>::None,
            pos,
            errs: seq![
                ZastErrorV::UnexpectedToken {
                    span: tok_at(toks, pos).span,
                    token_kind: kind_at(toks, pos),
                },
            ],
        }
    } else {
        let n = spec_parse_nud(toks, pos);
        match n.res {
            Option::<ExpressionV>::None => n,
            Some(left) => if n.pos > pos && n.pos < toks.len() {
                let l = spec_led_loop(toks, left, n.pos, minp);
                ParseOut { res: l.res, pos: l.pos, errs: n.errs + l.errs }
            } else {
                n
            },
        }
    }
}

/// What the prefix rule of the current token produces: a leaf for a
/// literal or identifier, a unary rule for `*`/`&`, and the grouping
/// rule for `(`.
pub open spec fn spec_parse_nud(toks: Seq<TokenV>, pos: int) -> ParseOut<ExpressionV>
    decreases toks.len() - pos, 3int,
    when valid_pos(toks, pos)
{
    let t = tok_at(toks, pos);
    match t.kind {
        TokenKind::Integer => ParseOut {
            res: Some(ExpressionV { node: ExprV::IntegerLiteral(lit_int(t.literal)), span: t.span }),
            pos: spec_advance(toks, pos),
            errs: Seq::<ZastErrorV>::empty(),
        },
        TokenKind::Float => ParseOut {
            res: Some(
                ExpressionV { node: ExprV::FloatLiteral(lit_float_text(t.literal)), span: t.span },
            ),
            pos: spec_advance(toks, pos),
            errs: Seq::<ZastErrorV>::empty(),
        },
        TokenKind::Identifier => ParseOut {
            res: Some(ExpressionV { node: ExprV::Identifier(lit_ident(t.literal)), span: t.span }),
            pos: spec_advance(toks, pos),
            errs: Seq::<ZastErrorV>::empty(),
        },
        TokenKind::Multiply => spec_parse_deref(toks, pos),
        TokenKind::Ampersand => spec_parse_addr(toks, pos),
        TokenKind::LeftParenthesis => spec_parse_grouping(toks, pos),
        _ => ParseOut { res: Option::<ExpressionV>::None, pos, errs: Seq::<ZastErrorV>::empty() },
    }
}

/// What the dereference prefix rule produces: the operator consumed,
/// the operand parsed at unary power, the node spanning both.
pub open spec fn spec_parse_deref(toks: Seq<TokenV>, pos: int) -> ParseOut<ExpressionV>
    decreases toks.len() - pos, 2int,
    when valid_pos(toks, pos)
{
    let op_span = tok_at(toks, pos).span;
    if spec_advance(toks, pos) > pos {
        let inner = spec_parse_expr(toks, spec_advance(toks, pos), spec_prec_value(
            Precedence::Unary,
        ));
        match inner.res {
            Some(e) => ParseOut {
                res: Some(
                    ExpressionV {
                        node: ExprV::Dereference(Box::new(e)),
                        span: span_union(op_span, e.span),
                    },
                ),
                pos: inner.pos,
                errs: inner.errs,
            },
            Option::<ExpressionV>::None => inner,
        }
    } else {
        ParseOut { res: Option::<ExpressionV>::None, pos, errs: Seq::<ZastErrorV>::empty() }
    }
}

/// What the address-of prefix rule produces: the operator consumed,
/// the operand parsed at unary power, the node spanning both.
pub open spec fn spec_parse_addr(toks: Seq<TokenV>, pos: int) -> ParseOut<ExpressionV>
    decreases toks.len() - pos, 2int,
    when valid_pos(toks, pos)
{
    let op_span = tok_at(toks, pos).span;
    if spec_advance(toks, pos) > pos {
        let inner = spec_parse_expr(toks, spec_advance(toks, pos), spec_prec_value(
            Precedence::Unary,
        ));
        match inner.res {
            Some(e) => ParseOut {
                res: Some(
                    ExpressionV {
                        node: ExprV::Address(Box::new(e)),
                        span: span_union(op_span, e.span),
                    },
                ),
                pos: inner.pos,
                errs: inner.errs,
            },
            Option::<ExpressionV>::None => inner,
        }
    } else {
        ParseOut { res: Option::<ExpressionV>::None, pos, errs: Seq::<ZastErrorV>::empty() }
    }
}

/// What the grouping rule produces: `(`, the inner expression at
/// default power, then a required `)`. The group adds no node of its
/// own; the inner expression keeps its own span.
pub open spec fn spec_parse_grouping(toks: Seq<TokenV>, pos: int) -> ParseOut<ExpressionV>
    decreases toks.len() - pos, 2int,
    when valid_pos(toks, pos)
{
    if spec_advance(toks, pos) > pos {
        let inner = spec_parse_expr(toks, spec_advance(toks, pos), 0);
        match inner.res {
            Some(e) => if valid_pos(toks, inner.pos) {
                let c = spec_check(toks, inner.pos, seq![ExpectedV::Token(
                    TokenKind::RightParenthesis,
                )]);
                if c.0 {
                    ParseOut { res: Some(e), pos: spec_advance(toks, inner.pos), errs: inner.errs }
                } else {
                    ParseOut {
                        res: Option::<ExpressionV>::None,
                        pos: inner.pos,
                        errs: inner.errs + c.1,
                    }
                }
            } else {
                ParseOut { res: Option::<ExpressionV>::None, pos: inner.pos, errs: inner.errs }
            },
            Option::<ExpressionV>::None => inner,
        }
    } else {
        ParseOut { res: Option::<ExpressionV>::None, pos, errs: Seq::<ZastErrorV>::empty() }
    }
}

/// What one infix step produces from an already-parsed left operand:
/// the operator consumed, the right operand parsed at the operator's
/// own binding power — which makes operators of one level
/// left-associative — and the two joined under a node spanning both.
pub open spec fn spec_parse_binary(toks: Seq<TokenV>, left: ExpressionV, pos: int) -> ParseOut<
    ExpressionV,
>
    decreases toks.len() - pos, 2int,
    when valid_pos(toks, pos)
{
    let op = kind_at(toks, pos);
    if spec_advance(toks, pos) > pos {
        let rhs = spec_parse_expr(toks, spec_advance(toks, pos), spec_token_prec(op));
        match rhs.res {
            Option::<ExpressionV>::None => ParseOut {
                res: Option::<ExpressionV>::None,
                pos: rhs.pos,
                errs: rhs.errs,
            },
            Some(right) => ParseOut {
                res: Some(
                    ExpressionV {
                        node: ExprV::BinaryExpression {
                            left: Box::new(left),
                            operator: op,
                            right: Box::new(right),
                        },
                        span: span_union(left.span, right.span),
                    },
                ),
                pos: rhs.pos,
                errs: rhs.errs,
            },
        }
    } else {
        ParseOut { res: Option::<ExpressionV>::None, pos, errs: Seq::<ZastErrorV>::empty() }
    }
}

/// What the infix loop produces: infix steps while the stream has not
/// ended, the operator ahead binds tighter than `minp`, and it has an
/// infix rule.
pub open spec fn spec_led_loop(toks: Seq<TokenV>, left: ExpressionV, pos: int, minp: u8) -> ParseOut<
    ExpressionV,
>
    decreases toks.len() - pos, 3int,
    when valid_pos(toks, pos)
{
    if at_eof(toks, pos) || minp >= spec_token_prec(kind_at(toks, pos)) || !has_led(
        kind_at(toks, pos),
    ) {
        ParseOut { res: Some(left), pos, errs: Seq::<ZastErrorV>::empty() }
    } else {
        let b = spec_parse_binary(toks, left, pos);
        match b.res {
            Option::<ExpressionV>::None => b,
            Some(joined) => if b.pos > pos && b.pos < toks.len() {
                let l = spec_led_loop(toks, joined, b.pos, minp);
                ParseOut { res: l.res, pos: l.pos, errs: b.errs + l.errs }
            } else {
                ParseOut { res: Some(joined), pos: b.pos, errs: b.errs }
            },
        }
    }
}

/// An operator that does not bind tighter than the demanded minimum
/// never extends a finished left operand: the infix loop hands it back
/// unchanged, with the cursor still on the operator. Since the right
/// side of a binary operator is parsed at the operator's own binding
/// power, an operator of the same level cannot attach inside that right
/// side — which is what makes each level left-associative — a weaker
/// operator cannot attach inside the operand of a tighter one, and a
/// token with no binding power at all, such as a statement terminator,
/// always ends the expression.
pub proof fn lemma_led_loop_stops_at_weak_operator(
    toks: Seq<TokenV>,
    left: ExpressionV,
    pos: int,
    minp: u8,
)
    requires
        valid_pos(toks, pos),
        minp >= spec_token_prec(kind_at(toks, pos)),
    ensures
        spec_led_loop(toks, left, pos, minp).res == Some(left),
        spec_led_loop(toks, left, pos, minp).pos == pos,
        spec_led_loop(toks, left, pos, minp).errs == Seq::<ZastErrorV>::empty(),
{
}

/// What parsing a type annotation produces: `*` then a pointee for a
/// pointer, an identifier as a primitive name, and otherwise an
/// `ExpectedToken` diagnostic naming the "type annotation" concept.
pub open spec fn spec_parse_value_type(toks: Seq<TokenV>, pos: int) -> ParseOut<AnnotatedTypeV>
    decreases toks.len() - pos, 6int,
    when valid_pos(toks, pos)
{
    match kind_at(toks, pos) {
        TokenKind::Multiply => if spec_advance(toks, pos) > pos {
            let inner = spec_parse_value_type(toks, spec_advance(toks, pos));
            match inner.res {
                Some(t) => ParseOut {
                    res: Some(AnnotatedTypeV::Pointer(Box::new(t))),
                    pos: inner.pos,
                    errs: inner.errs,
                },
                Option::<AnnotatedTypeV>::None => inner,
            }
        } else {
            ParseOut { res: Option::<AnnotatedTypeV>::None, pos, errs: Seq::<ZastErrorV>::empty() }
        },
        TokenKind::Identifier => ParseOut {
            res: Some(AnnotatedTypeV::Primitive(lit_ident(tok_at(toks, pos).literal))),
            pos: spec_advance(toks, pos),
            errs: Seq::<ZastErrorV>::empty(),
        },
        _ => ParseOut {
            res: Option::<AnnotatedTypeV>::None,
            pos,
            errs: seq![
                ZastErrorV::ExpectedToken {
                    span: tok_at(toks, pos).span,
                    expected_tokens: seq![ExpectedV::Concept("type annotation"@)],
                    found_token: kind_at(toks, pos),
                },
            ],
        },
    }
}

/// What parsing a return type produces. The position must carry an
/// identifier literal, or the attempt fails silently — a quirk kept
/// from the grammar: a pointer return type is not accepted, and no
/// diagnostic is recorded for it here. The name `void` maps to the void
/// return type; any other identifier parses as a type annotation.
pub open spec fn spec_parse_return_type(toks: Seq<TokenV>, pos: int) -> ParseOut<ReturnTypeV>
    decreases toks.len() - pos, 7int,
    when valid_pos(toks, pos)
{
    match tok_at(toks, pos).literal {
        LiteralV::Identifier(name) => if name == "void"@ {
            ParseOut {
                res: Some(ReturnTypeV::Void),
                pos: spec_advance(toks, pos),
                errs: Seq::<ZastErrorV>::empty(),
            }
        } else {
            let t = spec_parse_value_type(toks, pos);
            match t.res {
                Some(a) => ParseOut { res: Some(ReturnTypeV::Type(a)), pos: t.pos, errs: t.errs },
                Option::<AnnotatedTypeV>::None => ParseOut {
                    res: Option::<ReturnTypeV>::None,
                    pos: t.pos,
                    errs: t.errs,
                },
            }
        },
        _ => ParseOut {
            res: Option::<ReturnTypeV>::None,
            pos,
            errs: Seq::<ZastErrorV>::empty(),
        },
    }
}

/// What parsing one `name: type` parameter produces. Its span is the
/// span of the name token, the site a duplicate would cite.
pub open spec fn spec_parse_single_param(toks: Seq<TokenV>, pos: int) -> ParseOut<
    FunctionParameterV,
>
    decreases toks.len() - pos, 7int,
    when valid_pos(toks, pos)
{
    let c = spec_check(toks, pos, seq![ExpectedV::Token(TokenKind::Identifier)]);
    if !c.0 {
        ParseOut { res: Option::<FunctionParameterV>::None, pos, errs: c.1 }
    } else {
        let name = lit_ident(tok_at(toks, pos).literal);
        let name_span = tok_at(toks, pos).span;
        let pos1 = spec_advance(toks, pos);
        if !valid_pos(toks, pos1) {
            ParseOut {
                res: Option::<FunctionParameterV>::None,
                pos: pos1,
                errs: Seq::<ZastErrorV>::empty(),
            }
        } else {
            let e = spec_check(toks, pos1, seq![ExpectedV::Token(TokenKind::Colon)]);
            if !e.0 {
                ParseOut { res: Option::<FunctionParameterV>::None, pos: pos1, errs: e.1 }
            } else {
                let pos2 = spec_advance(toks, pos1);
                if !valid_pos(toks, pos2) {
                    ParseOut {
                        res: Option::<FunctionParameterV>::None,
                        pos: pos2,
                        errs: Seq::<ZastErrorV>::empty(),
                    }
                } else {
                    let t = spec_parse_value_type(toks, pos2);
                    match t.res {
                        Some(a) => ParseOut {
                            res: Some(
                                FunctionParameterV {
                                    name,
                                    annotated_type: a,
                                    span: name_span,
                                },
                            ),
                            pos: t.pos,
                            errs: t.errs,
                        },
                        Option::<AnnotatedTypeV>::None => ParseOut {
                            res: Option::<FunctionParameterV>::None,
                            pos: t.pos,
                            errs: t.errs,
                        },
                    }
                }
            }
        }
    }
}

/// What the `, parameter` tail of a parameter list produces, given the
/// parameters read so far: parameters keep arriving while a comma
/// stands under the cursor, and a comma directly before `)` ends the
/// list without another parameter.
pub open spec fn spec_params_loop(toks: Seq<TokenV>, acc: Seq<FunctionParameterV>, pos: int) -> ParseOut<
    Seq<FunctionParameterV>,
>
    decreases toks.len() - pos, 8int,
    when valid_pos(toks, pos)
{
    if at_eof(toks, pos) || kind_at(toks, pos) != TokenKind::Comma {
        ParseOut { res: Some(acc), pos, errs: Seq::<ZastErrorV>::empty() }
    } else {
        let pos1 = spec_advance(toks, pos);
        if !valid_pos(toks, pos1) || pos1 <= pos {
            ParseOut { res: Some(acc), pos: pos1, errs: Seq::<ZastErrorV>::empty() }
        } else if kind_at(toks, pos1) == TokenKind::RightParenthesis {
            ParseOut { res: Some(acc), pos: pos1, errs: Seq::<ZastErrorV>::empty() }
        } else {
            let p = spec_parse_single_param(toks, pos1);
            match p.res {
                Option::<FunctionParameterV>::None => ParseOut {
                    res: Option::<Seq<FunctionParameterV>>::None,
                    pos: p.pos,
                    errs: p.errs,
                },
                Some(param) => if p.pos > pos && p.pos < toks.len() {
                    let l = spec_params_loop(toks, acc.push(param), p.pos);
                    ParseOut { res: l.res, pos: l.pos, errs: p.errs + l.errs }
                } else {
                    ParseOut { res: Some(acc.push(param)), pos: p.pos, errs: p.errs }
                },
            }
        }
    }
}

/// What parsing a parenthesised parameter list produces: `()` is empty,
/// otherwise one parameter and then the comma tail, and finally the
/// closing `)`.
pub open spec fn spec_parse_param_list(toks: Seq<TokenV>, pos: int) -> ParseOut<
    Seq<FunctionParameterV>,
>
    decreases toks.len() - pos, 9int,
    when valid_pos(toks, pos)
{
    let c = spec_check(toks, pos, seq![ExpectedV::Token(TokenKind::LeftParenthesis)]);
    if !c.0 {
        ParseOut { res: Option::<Seq<FunctionParameterV>>::None, pos, errs: c.1 }
    } else {
        let pos1 = spec_advance(toks, pos);
        if !valid_pos(toks, pos1) {
            ParseOut {
                res: Option::<Seq<FunctionParameterV>>::None,
                pos: pos1,
                errs: Seq::<ZastErrorV>::empty(),
            }
        } else if kind_at(toks, pos1) == TokenKind::RightParenthesis {
            ParseOut {
                res: Some(Seq::<FunctionParameterV>::empty()),
                pos: spec_advance(toks, pos1),
                errs: Seq::<ZastErrorV>::empty(),
            }
        } else {
            let p = spec_parse_single_param(toks, pos1);
            match p.res {
                Option::<FunctionParameterV>::None => ParseOut {
                    res: Option::<Seq<FunctionParameterV>>::None,
                    pos: p.pos,
                    errs: p.errs,
                },
                Some(param) => {
                    let after = if p.pos > pos && p.pos < toks.len() {
                        let l = spec_params_loop(toks, seq![param], p.pos);
                        ParseOut { res: l.res, pos: l.pos, errs: p.errs + l.errs }
                    } else {
                        ParseOut { res: Some(seq![param]), pos: p.pos, errs: p.errs }
                    };
                    match after.res {
                        Option::<Seq<FunctionParameterV>>::None => after,
                        Some(params) => if valid_pos(toks, after.pos) {
                            let e = spec_check(toks, after.pos, seq![ExpectedV::Token(
                                TokenKind::RightParenthesis,
                            )]);
                            if e.0 {
                                ParseOut {
                                    res: Some(params),
                                    pos: spec_advance(toks, after.pos),
                                    errs: after.errs,
                                }
                            } else {
                                ParseOut {
                                    res: Option::<Seq<FunctionParameterV>>::None,
                                    pos: after.pos,
                                    errs: after.errs + e.1,
                                }
                            }
                        } else {
                            ParseOut {
                                res: Option::<Seq<FunctionParameterV>>::None,
                                pos: after.pos,
                                errs: after.errs,
                            }
                        },
                    }
                },
            }
        }
    }
}

/// What parsing a `let`/`const` declaration produces:
/// `('let'|'const') identifier ':' type '=' expression ';'`, mutable
/// exactly when the keyword was `let`, spanning from the keyword to the
/// end of the initialising expression.
pub open spec fn spec_parse_var_decl(toks: Seq<TokenV>, pos: int) -> ParseOut<StatementV>
    decreases toks.len() - pos, 10int,
    when valid_pos(toks, pos)
{
    let decl_kind = kind_at(toks, pos);
    let decl_span = tok_at(toks, pos).span;
    let pos1 = spec_advance(toks, pos);
    if !valid_pos(toks, pos1) {
        ParseOut { res: Option::<StatementV>::None, pos: pos1, errs: Seq::<ZastErrorV>::empty() }
    } else {
        let c = spec_check(toks, pos1, seq![ExpectedV::Token(TokenKind::Identifier)]);
        if !c.0 {
            ParseOut { res: Option::<StatementV>::None, pos: pos1, errs: c.1 }
        } else {
            let name = lit_ident(tok_at(toks, pos1).literal);
            let pos2 = spec_advance(toks, pos1);
            if !valid_pos(toks, pos2) {
                ParseOut {
                    res: Option::<StatementV>::None,
                    pos: pos2,
                    errs: Seq::<ZastErrorV>::empty(),
                }
            } else {
                let e1 = spec_check(toks, pos2, seq![ExpectedV::Token(TokenKind::Colon)]);
                if !e1.0 {
                    ParseOut { res: Option::<StatementV>::None, pos: pos2, errs: e1.1 }
                } else {
                    let pos3 = spec_advance(toks, pos2);
                    if !valid_pos(toks, pos3) {
                        ParseOut {
                            res: Option::<StatementV>::None,
                            pos: pos3,
                            errs: Seq::<ZastErrorV>::empty(),
                        }
                    } else {
                        let t = spec_parse_value_type(toks, pos3);
                        match t.res {
                            Option::<AnnotatedTypeV>::None => ParseOut {
                                res: Option::<StatementV>::None,
                                pos: t.pos,
                                errs: t.errs,
                            },
                            Some(ty) => if valid_pos(toks, t.pos) && t.pos >= pos {
                                spec_parse_var_decl_tail(
                                    toks,
                                    t.pos,
                                    decl_kind,
                                    decl_span,
                                    name,
                                    ty,
                                    t.errs,
                                )
                            } else {
                                ParseOut {
                                    res: Option::<StatementV>::None,
                                    pos: t.pos,
                                    errs: t.errs,
                                }
                            },
                        }
                    }
                }
            }
        }
    }
}

/// The `'=' expression ';'` tail of a variable declaration.
pub open spec fn spec_parse_var_decl_tail(
    toks: Seq<TokenV>,
    pos: int,
    decl_kind: TokenKind,
    decl_span: Span,
    name: Seq<char>,
    ty: AnnotatedTypeV,
    errs0: Seq<ZastErrorV>,
) -> ParseOut<StatementV>
    decreases toks.len() - pos, 9int,
    when valid_pos(toks, pos)
{
    let e2 = spec_check(toks, pos, seq![ExpectedV::Token(TokenKind::Assignment)]);
    if !e2.0 {
        ParseOut { res: Option::<StatementV>::None, pos, errs: errs0 + e2.1 }
    } else {
        let pos1 = spec_advance(toks, pos);
        if !valid_pos(toks, pos1) {
            ParseOut { res: Option::<StatementV>::None, pos: pos1, errs: errs0 }
        } else {
            let v = spec_parse_expr(toks, pos1, 0);
            match v.res {
                Option::<ExpressionV>::None => ParseOut {
                    res: Option::<StatementV>::None,
                    pos: v.pos,
                    errs: errs0 + v.errs,
                },
                Some(value) => if valid_pos(toks, v.pos) {
                    let e3 = spec_check(toks, v.pos, seq![ExpectedV::Token(TokenKind::Semicolon)]);
                    if e3.0 {
                        ParseOut {
                            res: Some(
                                StatementV {
                                    node: StmtV::VariableDeclaration {
                                        mutable: decl_kind == TokenKind::Let,
                                        identifier: name,
                                        annotated_type: ty,
                                        value,
                                    },
                                    span: span_union(decl_span, value.span),
                                },
                            ),
                            pos: spec_advance(toks, v.pos),
                            errs: errs0 + v.errs,
                        }
                    } else {
                        ParseOut {
                            res: Option::<StatementV>::None,
                            pos: v.pos,
                            errs: errs0 + v.errs + e3.1,
                        }
                    }
                } else {
                    ParseOut { res: Option::<StatementV>::None, pos: v.pos, errs: errs0 + v.errs }
                },
            }
        }
    }
}

/// What parsing a block produces: `'{' statement* '}'`, failing as a
/// whole on the first statement that fails, spanning from `{` to `}`.
pub open spec fn spec_parse_block(toks: Seq<TokenV>, pos: int) -> ParseOut<StatementV>
    decreases toks.len() - pos, 13int,
    when valid_pos(toks, pos)
{
    let lb_span = tok_at(toks, pos).span;
    let c = spec_check(toks, pos, seq![ExpectedV::Token(TokenKind::LeftBrace)]);
    if !c.0 {
        ParseOut { res: Option::<StatementV>::None, pos, errs: c.1 }
    } else {
        let pos1 = spec_advance(toks, pos);
        if !valid_pos(toks, pos1) {
            ParseOut {
                res: Option::<StatementV>::None,
                pos: pos1,
                errs: Seq::<ZastErrorV>::empty(),
            }
        } else {
            let l = spec_block_loop(toks, Seq::<StatementV>::empty(), pos1);
            match l.res {
                Option::<Seq<StatementV>>::None => ParseOut {
                    res: Option::<StatementV>::None,
                    pos: l.pos,
                    errs: l.errs,
                },
                Some(stmts) => if valid_pos(toks, l.pos) {
                    let rb_span = tok_at(toks, l.pos).span;
                    let e = spec_check(toks, l.pos, seq![ExpectedV::Token(TokenKind::RightBrace)]);
                    if e.0 {
                        ParseOut {
                            res: Some(
                                StatementV {
                                    node: StmtV::BlockStatement { statements: stmts },
                                    span: span_union(lb_span, rb_span),
                                },
                            ),
                            pos: spec_advance(toks, l.pos),
                            errs: l.errs,
                        }
                    } else {
                        ParseOut {
                            res: Option::<StatementV>::None,
                            pos: l.pos,
                            errs: l.errs + e.1,
                        }
                    }
                } else {
                    ParseOut { res: Option::<StatementV>::None, pos: l.pos, errs: l.errs }
                },
            }
        }
    }
}

/// The statements of a block, one per step, until `}` or the end of the
/// stream; the first failing statement fails the whole block.
pub open spec fn spec_block_loop(toks: Seq<TokenV>, acc: Seq<StatementV>, pos: int) -> ParseOut<
    Seq<StatementV>,
>
    decreases toks.len() - pos, 12int,
    when valid_pos(toks, pos)
{
    if at_eof(toks, pos) || kind_at(toks, pos) == TokenKind::RightBrace {
        ParseOut { res: Some(acc), pos, errs: Seq::<ZastErrorV>::empty() }
    } else {
        let s = spec_try_parse_stmt(toks, pos);
        match s.res {
            Option::<StatementV>::None => ParseOut {
                res: Option::<Seq<StatementV>>::None,
                pos: s.pos,
                errs: s.errs,
            },
            Some(st) => if s.pos > pos && s.pos < toks.len() {
                let l = spec_block_loop(toks, acc.push(st), s.pos);
                ParseOut { res: l.res, pos: l.pos, errs: s.errs + l.errs }
            } else {
                ParseOut { res: Some(acc.push(st)), pos: s.pos, errs: s.errs }
            },
        }
    }
}

/// What parsing a function declaration produces:
/// `'fn' identifier '(' parameters ')' ':' return_type block`, spanning
/// from the keyword to the end of the body.
pub open spec fn spec_parse_fn_decl(toks: Seq<TokenV>, pos: int) -> ParseOut<StatementV>
    decreases toks.len() - pos, 10int,
    when valid_pos(toks, pos)
{
    let fn_span = tok_at(toks, pos).span;
    let pos1 = spec_advance(toks, pos);
    if !valid_pos(toks, pos1) || pos1 <= pos {
        ParseOut { res: Option::<StatementV>::None, pos: pos1, errs: Seq::<ZastErrorV>::empty() }
    } else {
        let c = spec_check(toks, pos1, seq![ExpectedV::Token(TokenKind::Identifier)]);
        if !c.0 {
            ParseOut { res: Option::<StatementV>::None, pos: pos1, errs: c.1 }
        } else {
            let name = lit_ident(tok_at(toks, pos1).literal);
            let pos2 = spec_advance(toks, pos1);
            if !valid_pos(toks, pos2) {
                ParseOut {
                    res: Option::<StatementV>::None,
                    pos: pos2,
                    errs: Seq::<ZastErrorV>::empty(),
                }
            } else {
                let pl = spec_parse_param_list(toks, pos2);
                match pl.res {
                    Option::<Seq<FunctionParameterV>>::None => ParseOut {
                        res: Option::<StatementV>::None,
                        pos: pl.pos,
                        errs: pl.errs,
                    },
                    Some(params) => if valid_pos(toks, pl.pos) && pl.pos >= pos {
                        spec_parse_fn_decl_tail(toks, pl.pos, fn_span, name, params, pl.errs)
                    } else {
                        ParseOut { res: Option::<StatementV>::None, pos: pl.pos, errs: pl.errs }
                    },
                }
            }
        }
    }
}

/// The `':' return_type block` tail of a function declaration.
pub open spec fn spec_parse_fn_decl_tail(
    toks: Seq<TokenV>,
    pos: int,
    fn_span: Span,
    name: Seq<char>,
    params: Seq<FunctionParameterV>,
    errs0: Seq<ZastErrorV>,
) -> ParseOut<StatementV>
    decreases toks.len() - pos, 9int,
    when valid_pos(toks, pos)
{
    let e = spec_check(toks, pos, seq![ExpectedV::Token(TokenKind::Colon)]);
    if !e.0 {
        ParseOut { res: Option::<StatementV>::None, pos, errs: errs0 + e.1 }
    } else {
        let pos1 = spec_advance(toks, pos);
        if !valid_pos(toks, pos1) {
            ParseOut { res: Option::<StatementV>::None, pos: pos1, errs: errs0 }
        } else {
            let rt = spec_parse_return_type(toks, pos1);
            match rt.res {
                Option::<ReturnTypeV>::None => ParseOut {
                    res: Option::<StatementV>::None,
                    pos: rt.pos,
                    errs: errs0 + rt.errs,
                },
                Some(ret) => if valid_pos(toks, rt.pos) && rt.pos > pos {
                    let b = spec_parse_block(toks, rt.pos);
                    match b.res {
                        Option::<StatementV>::None => ParseOut {
                            res: Option::<StatementV>::None,
                            pos: b.pos,
                            errs: errs0 + rt.errs + b.errs,
                        },
                        Some(body) => ParseOut {
                            res: Some(
                                StatementV {
                                    node: StmtV::FunctionDeclaration {
                                        name,
                                        parameters: params,
                                        return_type: ret,
                                        body: Box::new(body),
                                    },
                                    span: span_union(fn_span, body.span),
                                },
                            ),
                            pos: b.pos,
                            errs: errs0 + rt.errs + b.errs,
                        },
                    }
                } else {
                    ParseOut {
                        res: Option::<StatementV>::None,
                        pos: rt.pos,
                        errs: errs0 + rt.errs,
                    }
                },
            }
        }
    }
}

/// What one statement attempt produces: `let`, `const` and `fn`
/// dispatch to their declaration rules; anything else parses as an
/// expression statement that must end in `;`, spanning only the
/// expression itself.
pub open spec fn spec_try_parse_stmt(toks: Seq<TokenV>, pos: int) -> ParseOut<StatementV>
    decreases toks.len() - pos, 11int,
    when valid_pos(toks, pos)
{
    match kind_at(toks, pos) {
        TokenKind::Let | TokenKind::Const => spec_parse_var_decl(toks, pos),
        TokenKind::Fn => spec_parse_fn_decl(toks, pos),
        _ => {
            let e = spec_parse_expr(toks, pos, 0);
            match e.res {
                Option::<ExpressionV>::None => ParseOut {
                    res: Option::<StatementV>::None,
                    pos: e.pos,
                    errs: e.errs,
                },
                Some(expr) => if valid_pos(toks, e.pos) {
                    let s = spec_check(toks, e.pos, seq![ExpectedV::Token(TokenKind::Semicolon)]);
                    if s.0 {
                        ParseOut {
                            res: Some(
                                StatementV {
                                    node: StmtV::Expression { expression: expr },
                                    span: expr.span,
                                },
                            ),
                            pos: spec_advance(toks, e.pos),
                            errs: e.errs,
                        }
                    } else {
                        ParseOut {
                            res: Option::<StatementV>::None,
                            pos: e.pos,
                            errs: e.errs + s.1,
                        }
                    }
                } else {
                    ParseOut { res: Option::<StatementV>::None, pos: e.pos, errs: e.errs }
                },
            }
        },
    }
}

/// Where panic-mode recovery stops, from `pos` with `depth` open
/// delimiters: a `;` at depth zero is consumed and recovery stops; a
/// closing delimiter at depth zero is consumed as the safe boundary;
/// opening delimiters deepen, closing ones shallow the nesting; the
/// end of the stream stops recovery where it stands.
pub open spec fn spec_sync(toks: Seq<TokenV>, pos: int, depth: int) -> int
    decreases toks.len() - pos, 0int,
    when valid_pos(toks, pos)
{
    if at_eof(toks, pos) {
        pos
    } else if spec_advance(toks, pos) <= pos {
        pos
    } else {
        match kind_at(toks, pos) {
            TokenKind::LeftParenthesis | TokenKind::LeftBrace => spec_sync(
                toks,
                spec_advance(toks, pos),
                depth + 1,
            ),
            TokenKind::RightParenthesis | TokenKind::RightBrace => if depth == 0 {
                spec_advance(toks, pos)
            } else {
                spec_sync(toks, spec_advance(toks, pos), depth - 1)
            },
            TokenKind::Semicolon => if depth == 0 {
                spec_advance(toks, pos)
            } else {
                spec_sync(toks, spec_advance(toks, pos), depth)
            },
            _ => spec_sync(toks, spec_advance(toks, pos), depth),
        }
    }
}

/// The whole program's parse: the statements collected and every
/// diagnostic recorded, in order. A failed statement attempt is
/// followed by recovery before the next attempt.
pub struct ProgramOut {
    pub body: Seq<StatementV>,
    pub errs: Seq<ZastErrorV>,
    pub pos: int,
}

/// The top-level statement loop from `pos`.
pub open spec fn spec_program_loop(toks: Seq<TokenV>, acc: Seq<StatementV>, pos: int) -> ProgramOut
    decreases toks.len() - pos, 14int,
    when valid_pos(toks, pos)
{
    if at_eof(toks, pos) {
        ProgramOut { body: acc, errs: Seq::<ZastErrorV>::empty(), pos }
    } else {
        let s = spec_try_parse_stmt(toks, pos);
        match s.res {
            Some(st) => if s.pos > pos && s.pos < toks.len() {
                let rest = spec_program_loop(toks, acc.push(st), s.pos);
                ProgramOut { body: rest.body, errs: s.errs + rest.errs, pos: rest.pos }
            } else {
                ProgramOut { body: acc.push(st), errs: s.errs, pos: s.pos }
            },
            Option::<StatementV>::None => if valid_pos(toks, s.pos) && s.pos >= pos {
                let sp = spec_sync(toks, s.pos, 0);
                if sp > pos && sp < toks.len() {
                    let rest = spec_program_loop(toks, acc, sp);
                    ProgramOut { body: rest.body, errs: s.errs + rest.errs, pos: rest.pos }
                } else {
                    ProgramOut { body: acc, errs: s.errs, pos: sp }
                }
            } else {
                ProgramOut { body: acc, errs: s.errs, pos: s.pos }
            },
        }
    }
}

} // verus!
