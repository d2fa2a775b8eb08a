//! Expression and statement parsing behaviour, token stream in, tree out.

use zast::ast::{Expr, Expression, Statement, Stmt};
use zast::parser::precedence_table::Precedence;
use zast::parser::ZastParser;
use zast::tokens::{Literal, Span, Token, TokenKind};
use zast::types::annotated_type::AnnotatedType as At;

fn sp(col_start: usize, col_end: usize) -> Span {
    Span { col_start, col_end, ln_start: 1, ln_end: 1 }
}

/// A token on line one whose columns cover its lexeme.
fn tok(kind: TokenKind, lexeme: &str, col_start: usize) -> Token {
    let col_end = col_start + lexeme.chars().count() - 1;
    let literal = match kind {
        TokenKind::Integer => Literal::IntegerValue(lexeme.parse().unwrap()),
        TokenKind::Float => Literal::FloatValue(lexeme.to_string()),
        TokenKind::Identifier => Literal::Identifier(lexeme.to_string()),
        TokenKind::String => Literal::StringValue(lexeme.to_string()),
        _ => Literal::NoValue,
    };
    Token { literal, lexeme: lexeme.to_string(), span: sp(col_start, col_end), kind }
}

/// Lays simple one-line source out as tokens, one column per character.
fn scan(src: &str) -> Vec<Token> {
    let chars: Vec<char> = src.chars().collect();
    let mut toks = Vec::new();
    let mut i = 0usize;
    while i < chars.len() {
        let c = chars[i];
        let col = i + 1;
        if c == ' ' {
            i += 1;
            continue;
        }
        if c.is_ascii_digit() {
            let start = i;
            while i < chars.len() && chars[i].is_ascii_digit() {
                i += 1;
            }
            if i < chars.len() && chars[i] == '.' && i + 1 < chars.len()
                && chars[i + 1].is_ascii_digit()
            {
                i += 1;
                while i < chars.len() && chars[i].is_ascii_digit() {
                    i += 1;
                }
                let text: String = chars[start..i].iter().collect();
                toks.push(tok(TokenKind::Float, &text, start + 1));
            } else {
                let text: String = chars[start..i].iter().collect();
                toks.push(tok(TokenKind::Integer, &text, start + 1));
            }
            continue;
        }
        if c.is_alphabetic() || c == '_' {
            let start = i;
            while i < chars.len() && (chars[i].is_alphanumeric() || chars[i] == '_') {
                i += 1;
            }
            let text: String = chars[start..i].iter().collect();
            let kind = match text.as_str() {
                "let" => TokenKind::Let,
                "const" => TokenKind::Const,
                "fn" => TokenKind::Fn,
                _ => TokenKind::Identifier,
            };
            toks.push(tok(kind, &text, start + 1));
            continue;
        }
        let kind = match c {
            ';' => TokenKind::Semicolon,
            ',' => TokenKind::Comma,
            ':' => TokenKind::Colon,
            '=' => TokenKind::Assignment,
            '.' => TokenKind::Dot,
            '+' => TokenKind::Plus,
            '-' => TokenKind::Minus,
            '*' => TokenKind::Multiply,
            '/' => TokenKind::Divide,
            '&' => TokenKind::Ampersand,
            '(' => TokenKind::LeftParenthesis,
            ')' => TokenKind::RightParenthesis,
            '{' => TokenKind::LeftBrace,
            '}' => TokenKind::RightBrace,
            _ => TokenKind::Illegal,
        };
        toks.push(tok(kind, &c.to_string(), col));
        i += 1;
    }
    toks.push(Token {
        literal: Literal::NoValue,
        lexeme: String::new(),
        span: sp(src.chars().count() + 1, src.chars().count() + 1),
        kind: TokenKind::Eof,
    });
    toks
}

fn parse_expr(src: &str) -> Expression {
    let mut parser = ZastParser::new(scan(src));
    parser.try_parse_expr(Precedence::Default).expect("expression should parse")
}

fn parse_ok(src: &str) -> Vec<Statement> {
    let mut parser = ZastParser::new(scan(src));
    parser.parse_program().expect("program should parse").body
}

fn int_value(e: &Expression) -> i64 {
    match e.node {
        Expr::IntegerLiteral(v) => v,
        _ => panic!("expected an integer literal"),
    }
}

#[test]
fn multiplicative_binds_single_pair() {
    let e = parse_expr("10*12");
    match &e.node {
        Expr::BinaryExpression { left, operator, right } => {
            assert_eq!(*operator, TokenKind::Multiply);
            assert_eq!(int_value(left), 10);
            assert_eq!(int_value(right), 12);
        }
        _ => panic!("expected a binary expression"),
    }
}

#[test]
fn multiplicative_binds_tighter_than_additive() {
    let e = parse_expr("1+2*3");
    match &e.node {
        Expr::BinaryExpression { left, operator, right } => {
            assert_eq!(*operator, TokenKind::Plus);
            assert_eq!(int_value(left), 1);
            match &right.node {
                Expr::BinaryExpression { left: rl, operator: op, right: rr } => {
                    assert_eq!(*op, TokenKind::Multiply);
                    assert_eq!(int_value(rl), 2);
                    assert_eq!(int_value(rr), 3);
                }
                _ => panic!("right side should be the product"),
            }
        }
        _ => panic!("expected a binary expression"),
    }
}

#[test]
fn same_precedence_is_left_associative() {
    let e = parse_expr("1-2-3");
    match &e.node {
        Expr::BinaryExpression { left, operator, right } => {
            assert_eq!(*operator, TokenKind::Minus);
            assert_eq!(int_value(right), 3);
            match &left.node {
                Expr::BinaryExpression { left: ll, operator: op, right: lr } => {
                    assert_eq!(*op, TokenKind::Minus);
                    assert_eq!(int_value(ll), 1);
                    assert_eq!(int_value(lr), 2);
                }
                _ => panic!("left side should be the first difference"),
            }
        }
        _ => panic!("expected a binary expression"),
    }
}

#[test]
fn parentheses_override_precedence_without_a_node() {
    let e = parse_expr("(1+2)*3");
    match &e.node {
        Expr::BinaryExpression { left, operator, right } => {
            assert_eq!(*operator, TokenKind::Multiply);
            assert_eq!(int_value(right), 3);
            match &left.node {
                Expr::BinaryExpression { left: ll, operator: op, right: lr } => {
                    assert_eq!(*op, TokenKind::Plus);
                    assert_eq!(int_value(ll), 1);
                    assert_eq!(int_value(lr), 2);
                }
                _ => panic!("the group should dissolve into the sum, not a node"),
            }
            // the sum keeps its own span; the outer node spans from the
            // first operand to the last
            assert_eq!(left.span, sp(2, 4));
            assert_eq!(e.span, sp(2, 7));
        }
        _ => panic!("expected a binary expression"),
    }
}

#[test]
fn unary_binds_tighter_than_binary() {
    let e = parse_expr("*p+1");
    match &e.node {
        Expr::BinaryExpression { left, operator, right } => {
            assert_eq!(*operator, TokenKind::Plus);
            assert_eq!(int_value(right), 1);
            match &left.node {
                Expr::Dereference(inner) => match &inner.node {
                    Expr::Identifier(name) => assert_eq!(name, "p"),
                    _ => panic!("the dereference should wrap the identifier"),
                },
                _ => panic!("the left side should be the dereference"),
            }
        }
        _ => panic!("expected a binary expression"),
    }
}

#[test]
fn address_of_parses_as_unary() {
    let e = parse_expr("&x");
    match &e.node {
        Expr::Address(inner) => match &inner.node {
            Expr::Identifier(name) => assert_eq!(name, "x"),
            _ => panic!("the address should wrap the identifier"),
        },
        _ => panic!("expected an address-of"),
    }
}

#[test]
fn float_literal_keeps_its_text() {
    let e = parse_expr("3.14");
    match &e.node {
        Expr::FloatLiteral(text) => assert_eq!(text, "3.14"),
        _ => panic!("expected a float literal"),
    }
}

#[test]
fn let_declaration_parses() {
    let body = parse_ok("let x: u8 = 5;");
    assert_eq!(body.len(), 1);
    match &body[0].node {
        Stmt::VariableDeclaration { mutable, identifier, annotated_type, value } => {
            assert!(*mutable);
            assert_eq!(identifier, "x");
            match annotated_type {
                zast::types::annotated_type::AnnotatedType::Primitive(p) => {
                    assert_eq!(p, "u8")
                }
                _ => panic!("the annotation should be the primitive name"),
            }
            assert_eq!(int_value(value), 5);
        }
        _ => panic!("expected a variable declaration"),
    }
}

#[test]
fn const_declaration_is_immutable() {
    let body = parse_ok("const x: i32 = 7;");
    match &body[0].node {
        Stmt::VariableDeclaration { mutable, .. } => assert!(!*mutable),
        _ => panic!("expected a variable declaration"),
    }
}

#[test]
fn function_declaration_parses() {
    let body = parse_ok("fn main(a: i32, b: i32): void { }");
    assert_eq!(body.len(), 1);
    match &body[0].node {
        Stmt::FunctionDeclaration { name, parameters, return_type, body } => {
            assert_eq!(name, "main");
            assert_eq!(parameters.len(), 2);
            assert_eq!(parameters[0].name, "a");
            assert_eq!(parameters[1].name, "b");
            assert!(matches!(return_type, zast::types::return_type::ReturnType::Void));
            match &body.node {
                Stmt::BlockStatement { statements } => assert_eq!(statements.len(), 0),
                _ => panic!("the body should be a block"),
            }
        }
        _ => panic!("expected a function declaration"),
    }
}

#[test]
fn trailing_comma_and_double_pointer_parameter() {
    let body = parse_ok("fn main(a: **i32, b: i32,): void {}");
    match &body[0].node {
        Stmt::FunctionDeclaration { parameters, .. } => {
            assert_eq!(parameters.len(), 2);
            match &parameters[0].annotated_type {
                At::Pointer(inner) => match inner.as_ref() {
                    At::Pointer(inner2) => match inner2.as_ref() {
                        At::Primitive(p) => assert_eq!(p, "i32"),
                        _ => panic!("the pointee should be the primitive"),
                    },
                    _ => panic!("the type should be a double pointer"),
                },
                _ => panic!("the type should be a pointer"),
            }
        }
        _ => panic!("expected a function declaration"),
    }
}

#[test]
fn statement_without_nud_reports_unexpected_token() {
    let mut parser = ZastParser::new(scan(";"));
    let err = parser.parse_program().expect_err("should fail");
    assert_eq!(err.len(), 1);
    match err.get(0) {
        zast::error_handler::zast_errors::ZastError::UnexpectedToken { token_kind, .. } => {
            assert_eq!(*token_kind, TokenKind::Semicolon);
        }
        _ => panic!("expected an unexpected-token diagnostic"),
    }
}

#[test]
fn two_malformed_statements_give_two_diagnostics() {
    // a missing `)` in the parameter list, then a later statement
    // missing its `;`: recovery lets both be reported
    let mut parser = ZastParser::new(scan("fn f(a: i32 { } ; 1"));
    let err = parser.parse_program().expect_err("should fail");
    assert_eq!(err.len(), 2);
    match err.get(0) {
        zast::error_handler::zast_errors::ZastError::ExpectedToken { found_token, .. } => {
            assert_eq!(*found_token, TokenKind::LeftBrace);
        }
        _ => panic!("the first diagnostic should be the missing `)`"),
    }
    match err.get(1) {
        zast::error_handler::zast_errors::ZastError::ExpectedToken { found_token, .. } => {
            assert_eq!(*found_token, TokenKind::Eof);
        }
        _ => panic!("the second diagnostic should be the missing `;`"),
    }
}

fn expr_same_shape(a: &Expression, b: &Expression) -> bool {
    match (&a.node, &b.node) {
        (Expr::IntegerLiteral(x), Expr::IntegerLiteral(y)) => x == y,
        (Expr::FloatLiteral(x), Expr::FloatLiteral(y)) => x == y,
        (Expr::Identifier(x), Expr::Identifier(y)) => x == y,
        (Expr::Address(x), Expr::Address(y)) => expr_same_shape(x, y),
        (Expr::Dereference(x), Expr::Dereference(y)) => expr_same_shape(x, y),
        (
            Expr::BinaryExpression { left: la, operator: oa, right: ra },
            Expr::BinaryExpression { left: lb, operator: ob, right: rb },
        ) => oa == ob && expr_same_shape(la, lb) && expr_same_shape(ra, rb),
        _ => false,
    }
}

fn stmt_same_shape(a: &Statement, b: &Statement) -> bool {
    match (&a.node, &b.node) {
        (
            Stmt::FunctionDeclaration { name: na, parameters: pa, return_type: ra, body: ba },
            Stmt::FunctionDeclaration { name: nb, parameters: pb, return_type: rb, body: bb },
        ) => {
            na == nb && pa.len() == pb.len() && pa.iter().zip(pb.iter()).all(|(x, y)| {
                x.name == y.name && x.annotated_type == y.annotated_type
            }) && format!("{:?}", ra) == format!("{:?}", rb) && stmt_same_shape(ba, bb)
        }
        (
            Stmt::BlockStatement { statements: sa },
            Stmt::BlockStatement { statements: sb },
        ) => sa.len() == sb.len() && sa.iter().zip(sb.iter()).all(|(x, y)| stmt_same_shape(x, y)),
        (
            Stmt::Expression { expression: ea },
            Stmt::Expression { expression: eb },
        ) => expr_same_shape(ea, eb),
        (
            Stmt::VariableDeclaration {
                mutable: ma, identifier: ia, annotated_type: ta, value: va,
            },
            Stmt::VariableDeclaration {
                mutable: mb, identifier: ib, annotated_type: tb, value: vb,
            },
        ) => ma == mb && ia == ib && ta == tb && expr_same_shape(va, vb),
        _ => false,
    }
}

#[test]
fn reparsing_a_rendering_gives_the_same_structure() {
    // one program, rendered to source twice with different layout: the
    // trees agree in structure, only span values move
    let first = parse_ok("fn main(a: i32): void { let x: u8 = 1+2*3; } 4+5;");
    let second = parse_ok("fn  main( a : i32 ) : void  {  let x : u8 = 1 + 2 * 3 ; }  4 + 5 ;");
    assert_eq!(first.len(), second.len());
    for (a, b) in first.iter().zip(second.iter()) {
        assert!(stmt_same_shape(a, b));
    }
}

#[test]
fn pointer_return_type_fails_silently_and_drops_the_statement() {
    // a quirk kept from the grammar: `*u8` cannot stand as a return
    // type; the attempt records no diagnostic and the declaration is
    // dropped by recovery
    let mut parser = ZastParser::new(scan("fn f(): *u8 {}"));
    let program = parser.parse_program().expect("no diagnostic is recorded");
    assert_eq!(program.body.len(), 0);
}
