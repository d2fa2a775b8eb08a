//! The exact text of rendered diagnostics.

use zast::error_handler::zast_errors::{Expected, ZastError};
use zast::error_handler::ZastErrorCollector;
use zast::tokens::{Span, TokenKind};

fn sp(col_start: usize, col_end: usize, ln: usize) -> Span {
    Span { col_start, col_end, ln_start: ln, ln_end: ln }
}

#[test]
fn unexpected_token_message() {
    let e = ZastError::UnexpectedToken { span: sp(3, 3, 1), token_kind: TokenKind::Semicolon };
    assert_eq!(e.get_error_msg(), "Unexpected token found 'Semicolon'");
    assert_eq!(e.get_span(), sp(3, 3, 1));
}

#[test]
fn expected_token_message_with_one_item() {
    let e = ZastError::ExpectedToken {
        span: sp(5, 5, 2),
        expected_tokens: vec![Expected::Token(TokenKind::Semicolon)],
        found_token: TokenKind::Eof,
    };
    assert_eq!(e.get_error_msg(), "Expected 'Semicolon', got 'Eof' instead");
}

#[test]
fn expected_token_message_with_several_items() {
    let e = ZastError::ExpectedToken {
        span: sp(5, 5, 2),
        expected_tokens: vec![
            Expected::Token(TokenKind::Comma),
            Expected::Token(TokenKind::RightParenthesis),
            Expected::Concept("type annotation"),
        ],
        found_token: TokenKind::Let,
    };
    assert_eq!(
        e.get_error_msg(),
        "Expected either one of ( 'Comma', 'RightParenthesis', type annotation ), got 'Let' instead"
    );
}

#[test]
fn illegal_token_message() {
    let e = ZastError::IllegalToken { span: sp(1, 1, 1), token_lexeme: "#".to_string() };
    assert_eq!(e.get_error_msg(), "Illegal token found '#'");
}

#[test]
fn redeclaration_messages_cite_the_original_site() {
    let e = ZastError::VariableRedeclaration {
        span: sp(9, 9, 3),
        variable_name: "x".to_string(),
        original_span: sp(2, 4, 1),
    };
    assert_eq!(e.get_error_msg(), "Variable 'x' redeclared at '2-4:1'");
    let e = ZastError::FunctionRedeclaration {
        span: sp(9, 9, 3),
        fn_name: "f".to_string(),
        original_span: sp(10, 12, 2),
    };
    assert_eq!(e.get_error_msg(), "Function 'f' redeclared at '10-12:2'");
}

#[test]
fn format_span_renders_columns_then_lines() {
    let collector = ZastErrorCollector::new();
    assert_eq!(collector.format_span(sp(7, 7, 4)), "7:4");
    assert_eq!(collector.format_span(sp(7, 9, 4)), "7-9:4");
    assert_eq!(
        collector.format_span(Span { col_start: 1, col_end: 80, ln_start: 2, ln_end: 3 }),
        "1-80:2-3"
    );
    assert_eq!(collector.format_span(sp(120, 120, 56)), "120:56");
}

#[test]
fn collector_keeps_order_and_reports_lines() {
    let mut collector = ZastErrorCollector::new();
    assert!(!collector.has_errors());
    collector.add_error(ZastError::UnexpectedToken {
        span: sp(3, 3, 1),
        token_kind: TokenKind::Dot,
    });
    collector.add_error(ZastError::IllegalToken {
        span: sp(4, 4, 2),
        token_lexeme: "@".to_string(),
    });
    assert!(collector.has_errors());
    assert_eq!(collector.len(), 2);
    let lines = collector.report_all_errors();
    assert_eq!(lines.len(), 2);
    assert_eq!(lines[0], "Error at: 3:1 | Unexpected token found 'Dot'");
    assert_eq!(lines[1], "Error at: 4:2 | Illegal token found '@'");
    let taken = collector.take();
    assert!(!collector.has_errors());
    assert_eq!(taken.len(), 2);
}
