//! Rendering diagnostics as text: a location and a message per
//! diagnostic, built without any formatting machinery so that every
//! character of the output is pinned down.

use vstd::prelude::*;

use crate::error_handler::zast_errors::{
    spec_error_span, Expected, ExpectedV, ZastError, ZastErrorV,
};
use crate::error_handler::ZastErrorCollector;
use crate::tokens::{Span, TokenKind};

verus! {

use vstd::string::StringExecFns;

/// The decimal digit character of `d`, for `d` under ten.
pub open spec fn digit_char(d: nat) -> char {
    if d == 0 {
        '0'
    } else if d == 1 {
        '1'
    } else if d == 2 {
        '2'
    } else if d == 3 {
        '3'
    } else if d == 4 {
        '4'
    } else if d == 5 {
        '5'
    } else if d == 6 {
        '6'
    } else if d == 7 {
        '7'
    } else if d == 8 {
        '8'
    } else {
        '9'
    }
}

/// The decimal rendering of `n`, most significant digit first, without
/// leading zeroes.
pub open spec fn dec_str(n: nat) -> Seq<char>
    decreases n,
{
    if n < 10 {
        seq![digit_char(n)]
    } else {
        dec_str(n / 10).push(digit_char(n % 10))
    }
}

/// How a span renders: the column part, `:`, then the line part, each
/// part a single number or a `start-end` range when the ends differ.
pub open spec fn spec_format_span(span: Span) -> Seq<char> {
    let ln = if span.ln_start == span.ln_end {
        dec_str(span.ln_start as nat)
    } else {
        dec_str(span.ln_start as nat) + "-"@ + dec_str(span.ln_end as nat)
    };
    let col = if span.col_start == span.col_end {
        dec_str(span.col_start as nat)
    } else {
        dec_str(span.col_start as nat) + "-"@ + dec_str(span.col_end as nat)
    };
    col + ":"@ + ln
}

/// The name of a token kind as messages show it.
pub open spec fn spec_kind_name(k: TokenKind) -> Seq<char> {
    match k {
        TokenKind::Illegal => "Illegal"@,
        TokenKind::Eof => "Eof"@,
        TokenKind::String => "String"@,
        TokenKind::Identifier => "Identifier"@,
        TokenKind::Integer => "Integer"@,
        TokenKind::Float => "Float"@,
        TokenKind::Semicolon => "Semicolon"@,
        TokenKind::Comma => "Comma"@,
        TokenKind::Colon => "Colon"@,
        TokenKind::Assignment => "Assignment"@,
        TokenKind::Dot => "Dot"@,
        TokenKind::Plus => "Plus"@,
        TokenKind::Minus => "Minus"@,
        TokenKind::Multiply => "Multiply"@,
        TokenKind::Divide => "Divide"@,
        TokenKind::Ampersand => "Ampersand"@,
        TokenKind::LeftParenthesis => "LeftParenthesis"@,
        TokenKind::RightParenthesis => "RightParenthesis"@,
        TokenKind::LeftBrace => "LeftBrace"@,
        TokenKind::RightBrace => "RightBrace"@,
        TokenKind::Let => "Let"@,
        TokenKind::Const => "Const"@,
        TokenKind::Fn => "Fn"@,
    }
}

/// How one expected item renders: a kind quoted, a concept bare.
pub open spec fn spec_expected_text(e: ExpectedV) -> Seq<char> {
    match e {
        ExpectedV::Token(k) => "'"@ + spec_kind_name(k) + "'"@,
        ExpectedV::Concept(s) => s,
    }
}

/// How a list of expected items renders: the items in order, separated
/// by a comma and a space.
pub open spec fn spec_expected_list(es: Seq<ExpectedV>) -> Seq<char>
    decreases es.len(),
{
    if es.len() == 0 {
        Seq::<char>::empty()
    } else if es.len() == 1 {
        spec_expected_text(es[0])
    } else {
        spec_expected_list(es.drop_last()) + ", "@ + spec_expected_text(es.last())
    }
}

/// The message text of a diagnostic.
pub open spec fn spec_error_msg(e: ZastErrorV) -> Seq<char> {
    match e {
        ZastErrorV::UnexpectedToken { token_kind, .. } => "Unexpected token found '"@
            + spec_kind_name(token_kind) + "'"@,
        ZastErrorV::ExpectedToken { expected_tokens, found_token, .. } => {
            if expected_tokens.len() == 1 {
                "Expected "@ + spec_expected_text(expected_tokens[0]) + ", got '"@
                    + spec_kind_name(found_token) + "' instead"@
            } else {
                "Expected either one of ( "@ + spec_expected_list(expected_tokens) + " ), got '"@
                    + spec_kind_name(found_token) + "' instead"@
            }
        },
        ZastErrorV::IllegalToken { token_lexeme, .. } => "Illegal token found '"@ + token_lexeme
            + "'"@,
        ZastErrorV::VariableRedeclaration { variable_name, original_span, .. } => "Variable '"@
            + variable_name + "' redeclared at '"@ + spec_format_span(original_span) + "'"@,
        ZastErrorV::FunctionRedeclaration { fn_name, original_span, .. } => "Function '"@
            + fn_name + "' redeclared at '"@ + spec_format_span(original_span) + "'"@,
    }
}

/// One reported line: the location, then the message.
pub open spec fn spec_report_line(e: ZastErrorV) -> Seq<char> {
    "Error at: "@ + spec_format_span(spec_error_span(e)) + " | "@ + spec_error_msg(e)
}

/// The digit character of `d`, for `d` under ten.
fn digit_str(d: usize) -> (r: &'static str)
    requires
        d < 10,
    ensures
        r@ == seq![digit_char(d as nat)],
{
    proof {
        reveal_strlit("0");
        reveal_strlit("1");
        reveal_strlit("2");
        reveal_strlit("3");
        reveal_strlit("4");
        reveal_strlit("5");
        reveal_strlit("6");
        reveal_strlit("7");
        reveal_strlit("8");
        reveal_strlit("9");
        assert("0"@ =~= seq!['0']);
        assert("1"@ =~= seq!['1']);
        assert("2"@ =~= seq!['2']);
        assert("3"@ =~= seq!['3']);
        assert("4"@ =~= seq!['4']);
        assert("5"@ =~= seq!['5']);
        assert("6"@ =~= seq!['6']);
        assert("7"@ =~= seq!['7']);
        assert("8"@ =~= seq!['8']);
        assert("9"@ =~= seq!['9']);
    }
    if d == 0 {
        "0"
    } else if d == 1 {
        "1"
    } else if d == 2 {
        "2"
    } else if d == 3 {
        "3"
    } else if d == 4 {
        "4"
    } else if d == 5 {
        "5"
    } else if d == 6 {
        "6"
    } else if d == 7 {
        "7"
    } else if d == 8 {
        "8"
    } else {
        "9"
    }
}

/// Renders a number in decimal.
fn dec_render(n: usize) -> (r: String)
    ensures
        r@ == dec_str(n as nat),
    decreases n,
{
    if n < 10 {
        digit_str(n).to_owned()
    } else {
        let mut s = dec_render(n / 10);
        s.append(digit_str(n % 10));
        s
    }
}

/// Renders a span as its location text.
fn render_span(span: Span) -> (r: String)
    ensures
        r@ == spec_format_span(span),
{
    let mut col: String = dec_render(span.col_start);
    if span.col_start != span.col_end {
        col.append("-");
        let end = dec_render(span.col_end);
        col.append(end.as_str());
    }
    let mut ln: String = dec_render(span.ln_start);
    if span.ln_start != span.ln_end {
        ln.append("-");
        let end = dec_render(span.ln_end);
        ln.append(end.as_str());
    }
    col.append(":");
    col.append(ln.as_str());
    proof {
        assert(col@ =~= spec_format_span(span));
    }
    col
}

/// The name of a token kind.
fn kind_name(k: TokenKind) -> (r: &'static str)
    ensures
        r@ == spec_kind_name(k),
{
    match k {
        TokenKind::Illegal => "Illegal",
        TokenKind::Eof => "Eof",
        TokenKind::String => "String",
        TokenKind::Identifier => "Identifier",
        TokenKind::Integer => "Integer",
        TokenKind::Float => "Float",
        TokenKind::Semicolon => "Semicolon",
        TokenKind::Comma => "Comma",
        TokenKind::Colon => "Colon",
        TokenKind::Assignment => "Assignment",
        TokenKind::Dot => "Dot",
        TokenKind::Plus => "Plus",
        TokenKind::Minus => "Minus",
        TokenKind::Multiply => "Multiply",
        TokenKind::Divide => "Divide",
        TokenKind::Ampersand => "Ampersand",
        TokenKind::LeftParenthesis => "LeftParenthesis",
        TokenKind::RightParenthesis => "RightParenthesis",
        TokenKind::LeftBrace => "LeftBrace",
        TokenKind::RightBrace => "RightBrace",
        TokenKind::Let => "Let",
        TokenKind::Const => "Const",
        TokenKind::Fn => "Fn",
    }
}

/// Renders one expected item.
fn expected_text(e: &Expected) -> (r: String)
    ensures
        r@ == spec_expected_text(e@),
{
    match e {
        Expected::Token(k) => {
            let mut s: String = "'".to_owned();
            s.append(kind_name(*k));
            s.append("'");
            proof {
                assert(s@ =~= spec_expected_text(e@));
            }
            s
        },
        Expected::Concept(c) => (*c).to_owned(),
    }
}

impl ZastError {
    /// The message text of this diagnostic.
    pub fn get_error_msg(&self) -> (r: String)
        ensures
            r@ == spec_error_msg(self@),
    {
            match self {
            ZastError::UnexpectedToken { token_kind, .. } => {
                let mut s: String = "Unexpected token found '".to_owned();
                s.append(kind_name(*token_kind));
                s.append("'");
                proof {
                    assert(s@ =~= spec_error_msg(self@));
                }
                s
            },
            ZastError::ExpectedToken { expected_tokens, found_token, .. } => {
                let ghost esv = expected_tokens@.map_values(|e: Expected| e@);
                if expected_tokens.len() == 1 {
                    let mut s: String = "Expected ".to_owned();
                    let t = expected_text(&expected_tokens[0]);
                    s.append(t.as_str());
                    s.append(", got '");
                    s.append(kind_name(*found_token));
                    s.append("' instead");
                    proof {
                        assert(esv[0] == expected_tokens@[0]@);
                        assert(s@ =~= spec_error_msg(self@));
                    }
                    s
                } else {
                    let mut joined: String = String::new();
                    let mut i: usize = 0;
                    proof {
                        assert(esv.take(0) =~= Seq::<ExpectedV>::empty());
                        assert(joined@ =~= spec_expected_list(esv.take(0)));
                    }
                    while i < expected_tokens.len()
                        invariant
                            0 <= i <= expected_tokens@.len(),
                            esv == expected_tokens@.map_values(|e: Expected| e@),
                            esv.len() == expected_tokens@.len(),
                            joined@ == spec_expected_list(esv.take(i as int)),
                        decreases expected_tokens@.len() - i,
                    {
                        if i > 0 {
                            joined.append(", ");
                        }
                        let t = expected_text(&expected_tokens[i]);
                        joined.append(t.as_str());
                        proof {
                            assert(esv[i as int] == expected_tokens@[i as int]@);
                            assert(esv.take(i + 1).drop_last() =~= esv.take(i as int));
                            assert(esv.take(i + 1).last() == esv[i as int]);
                            if i == 0 {
                                assert(joined@ =~= spec_expected_list(esv.take(1)));
                            } else {
                                assert(joined@ =~= spec_expected_list(esv.take(i + 1)));
                            }
                        }
                        i = i + 1;
                    }
                    proof {
                        assert(esv.take(esv.len() as int) =~= esv);
                    }
                    let mut s: String = "Expected either one of ( ".to_owned();
                    s.append(joined.as_str());
                    s.append(" ), got '");
                    s.append(kind_name(*found_token));
                    s.append("' instead");
                    proof {
                        assert(s@ =~= spec_error_msg(self@));
                    }
                    s
                }
            },
            ZastError::IllegalToken { token_lexeme, .. } => {
                let mut s: String = "Illegal token found '".to_owned();
                s.append(token_lexeme.as_str());
                s.append("'");
                proof {
                    assert(s@ =~= spec_error_msg(self@));
                }
                s
            },
            ZastError::VariableRedeclaration { variable_name, original_span, .. } => {
                let mut s: String = "Variable '".to_owned();
                s.append(variable_name.as_str());
                s.append("' redeclared at '");
                let sp = render_span(*original_span);
                s.append(sp.as_str());
                s.append("'");
                proof {
                    assert(s@ =~= spec_error_msg(self@));
                }
                s
            },
            ZastError::FunctionRedeclaration { fn_name, original_span, .. } => {
                let mut s: String = "Function '".to_owned();
                s.append(fn_name.as_str());
                s.append("' redeclared at '");
                let sp = render_span(*original_span);
                s.append(sp.as_str());
                s.append("'");
                proof {
                    assert(s@ =~= spec_error_msg(self@));
                }
                s
            },
        }
    }
}

impl ZastErrorCollector {
    /// Renders a span as its location text.
    pub fn format_span(&self, span: Span) -> (r: String)
        ensures
            r@ == spec_format_span(span),
    {
        render_span(span)
    }

    /// Renders the diagnostic at `error_idx` as one report line.
    pub fn report_error(&self, error_idx: usize) -> (r: String)
        requires
            error_idx < self@.len(),
        ensures
            r@ == spec_report_line(self@[error_idx as int]),
    {
            let error = self.get(error_idx);
        let mut s: String = "Error at: ".to_owned();
        let sp = self.format_span(error.get_span());
        s.append(sp.as_str());
        s.append(" | ");
        let msg = error.get_error_msg();
        s.append(msg.as_str());
        proof {
            assert(s@ =~= spec_report_line(self@[error_idx as int]));
        }
        s
    }

    /// Renders every recorded diagnostic, in order, one line each.
    pub fn report_all_errors(&self) -> (r: Vec<String>)
        ensures
            r@.len() == self@.len(),
            forall|i: int| 0 <= i < self@.len() ==> (#[trigger] r@[i])@ == spec_report_line(
                self@[i],
            ),
    {
        let mut lines: Vec<String> = Vec::new();
        let n = self.len();
        let mut i: usize = 0;
        while i < n
            invariant
                0 <= i <= n,
                n == self@.len(),
                lines@.len() == i,
                forall|j: int| 0 <= j < i ==> (#[trigger] lines@[j])@ == spec_report_line(
                    self@[j],
                ),
            decreases n - i,
        {
            let line = self.report_error(i);
            lines.push(line);
            i = i + 1;
        }
        lines
    }
}

} // verus!
