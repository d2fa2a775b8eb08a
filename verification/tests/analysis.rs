//! The analyzer, the symbol table, the type resolver and the lowering
//! stub, on concrete programs.

use zast::parser::ZastParser;
use zast::sema::{program_is_analyzable, ZastSemanticAnalyzer};
use zast::sema::symbol_type_table::ZastSymbolTypeTable;
use zast::sema::type_map::ZastTypeMap;
use zast::tokens::{Literal, Span, Token, TokenKind};
use zast::types::annotated_type::AnnotatedType;
use zast::types::return_type::ReturnType;
use zast::types::{FloatWidth, ValueType};
use zast::zast_ir::ir_instructions::ZastIRInstruction;
use zast::zast_ir::ZastIREmitter;
use zast::ast::ZastProgram;
use zast::error_handler::zast_errors::ZastError;

fn sp(col_start: usize, col_end: usize) -> Span {
    Span { col_start, col_end, ln_start: 1, ln_end: 1 }
}

fn tok(kind: TokenKind, lexeme: &str, col_start: usize) -> Token {
    let col_end = col_start + lexeme.chars().count() - 1;
    let literal = match kind {
        TokenKind::Integer => Literal::IntegerValue(lexeme.parse().unwrap()),
        TokenKind::Float => Literal::FloatValue(lexeme.to_string()),
        TokenKind::Identifier => Literal::Identifier(lexeme.to_string()),
        TokenKind::String => Literal::StringValue(lexeme.to_string()),
        _ => Literal::NoValue,
    };
    Token { literal, lexeme: lexeme.to_string(), span: sp(col_start, col_end), kind }
}

fn scan(src: &str) -> Vec<Token> {
    let chars: Vec<char> = src.chars().collect();
    let mut toks = Vec::new();
    let mut i = 0usize;
    while i < chars.len() {
        let c = chars[i];
        let col = i + 1;
        if c == ' ' {
            i += 1;
            continue;
        }
        if c.is_ascii_digit() {
            let start = i;
            while i < chars.len() && chars[i].is_ascii_digit() {
                i += 1;
            }
            let text: String = chars[start..i].iter().collect();
            toks.push(tok(TokenKind::Integer, &text, start + 1));
            continue;
        }
        if c.is_alphabetic() || c == '_' {
            let start = i;
            while i < chars.len() && (chars[i].is_alphanumeric() || chars[i] == '_') {
                i += 1;
            }
            let text: String = chars[start..i].iter().collect();
            let kind = match text.as_str() {
                "let" => TokenKind::Let,
                "const" => TokenKind::Const,
                "fn" => TokenKind::Fn,
                _ => TokenKind::Identifier,
            };
            toks.push(tok(kind, &text, start + 1));
            continue;
        }
        let kind = match c {
            ';' => TokenKind::Semicolon,
            ',' => TokenKind::Comma,
            ':' => TokenKind::Colon,
            '=' => TokenKind::Assignment,
            '+' => TokenKind::Plus,
            '-' => TokenKind::Minus,
            '*' => TokenKind::Multiply,
            '/' => TokenKind::Divide,
            '&' => TokenKind::Ampersand,
            '(' => TokenKind::LeftParenthesis,
            ')' => TokenKind::RightParenthesis,
            '{' => TokenKind::LeftBrace,
            '}' => TokenKind::RightBrace,
            _ => TokenKind::Illegal,
        };
        toks.push(tok(kind, &c.to_string(), col));
        i += 1;
    }
    toks.push(Token {
        literal: Literal::NoValue,
        lexeme: String::new(),
        span: sp(src.chars().count() + 1, src.chars().count() + 1),
        kind: TokenKind::Eof,
    });
    toks
}

fn parse(src: &str) -> ZastProgram {
    ZastParser::new(scan(src)).parse_program().expect("program should parse")
}

#[test]
fn analyzing_a_plain_function_succeeds() {
    let program = parse("fn main(a: i32, b: i32): void { }");
    assert!(program_is_analyzable(&program));
    let mut sema = ZastSemanticAnalyzer::new();
    assert!(sema.analyze(program).is_ok());
}

#[test]
fn duplicate_parameter_names_give_one_redeclaration_citing_the_first() {
    let program = parse("fn f(a: i32, a: i32): void {}");
    assert!(program_is_analyzable(&program));
    let mut sema = ZastSemanticAnalyzer::new();
    let err = sema.analyze(program).expect_err("should fail");
    assert_eq!(err.len(), 1);
    match err.get(0) {
        ZastError::VariableRedeclaration { variable_name, original_span, span } => {
            assert_eq!(variable_name, "a");
            // the first `a` stands at column six, the second at fourteen
            assert_eq!(*original_span, sp(6, 6));
            assert_eq!(*span, sp(14, 14));
        }
        _ => panic!("expected a variable redeclaration"),
    }
}

#[test]
fn two_functions_of_one_name_give_a_function_redeclaration() {
    let program = parse("fn f(): void {} fn f(): void {}");
    assert!(program_is_analyzable(&program));
    let mut sema = ZastSemanticAnalyzer::new();
    let err = sema.analyze(program).expect_err("should fail");
    assert_eq!(err.len(), 1);
    match err.get(0) {
        ZastError::FunctionRedeclaration { fn_name, .. } => assert_eq!(fn_name, "f"),
        _ => panic!("expected a function redeclaration"),
    }
}

#[test]
fn parameters_do_not_escape_their_function() {
    // the same parameter name in two sibling functions collides nowhere
    let program = parse("fn f(a: i32): void {} fn g(a: i32): void {}");
    assert!(program_is_analyzable(&program));
    let mut sema = ZastSemanticAnalyzer::new();
    assert!(sema.analyze(program).is_ok());
}

#[test]
fn a_bare_statement_is_not_analyzable() {
    let program = parse("1;");
    assert!(!program_is_analyzable(&program));
}

#[test]
fn symbol_table_declares_and_resolves_a_function_type() {
    let mut table = ZastSymbolTypeTable::new();
    let params = vec![
        ValueType::Integer { bits: 32, unsigned: false },
        ValueType::Integer { bits: 32, unsigned: false },
    ];
    table
        .declare_function_type("main".to_string(), params, ValueType::Void, sp(1, 4))
        .expect("a fresh name declares");
    let sym = table.resolve_ident_type("main").expect("the name resolves");
    assert_eq!(
        sym.value_type,
        ValueType::Function {
            params: vec![
                ValueType::Integer { bits: 32, unsigned: false },
                ValueType::Integer { bits: 32, unsigned: false },
            ],
            return_type: Box::new(ValueType::Void),
        }
    );
}

#[test]
fn inner_scopes_shadow_and_are_discarded() {
    let mut table = ZastSymbolTypeTable::new();
    table
        .declare_ident_type("x".to_string(), ValueType::Bool, sp(1, 1))
        .expect("outer x declares");
    table.enter_scope();
    table
        .declare_ident_type(
            "x".to_string(),
            ValueType::Integer { bits: 8, unsigned: true },
            sp(5, 5),
        )
        .expect("one scope in, the same name declares again");
    assert_eq!(
        table.resolve_ident_type("x").unwrap().value_type,
        ValueType::Integer { bits: 8, unsigned: true }
    );
    table.exit_scope();
    assert_eq!(table.resolve_ident_type("x").unwrap().value_type, ValueType::Bool);
}

#[test]
fn redeclaring_keeps_the_original_binding() {
    let mut table = ZastSymbolTypeTable::new();
    table
        .declare_ident_type("x".to_string(), ValueType::Bool, sp(1, 1))
        .expect("first declaration");
    let err = table
        .declare_ident_type("x".to_string(), ValueType::Void, sp(9, 9))
        .expect_err("second declaration is rejected");
    match err {
        ZastError::VariableRedeclaration { original_span, .. } => {
            assert_eq!(original_span, sp(1, 1));
        }
        _ => panic!("expected a variable redeclaration"),
    }
    assert_eq!(table.resolve_ident_type("x").unwrap().value_type, ValueType::Bool);
}

#[test]
fn resolver_maps_primitive_names() {
    let r = ValueType::from_annotated_type(AnnotatedType::Primitive("u8".to_string()));
    assert_eq!(r, ValueType::Integer { bits: 8, unsigned: true });
    let r = ValueType::from_annotated_type(AnnotatedType::Primitive("i32".to_string()));
    assert_eq!(r, ValueType::Integer { bits: 32, unsigned: false });
    let r = ValueType::from_annotated_type(AnnotatedType::Primitive("f64".to_string()));
    assert_eq!(r, ValueType::Float { width: FloatWidth::F64 });
    let r = ValueType::from_annotated_type(AnnotatedType::Primitive("bool".to_string()));
    assert_eq!(r, ValueType::Bool);
}

#[test]
fn resolver_maps_pointers_recursively() {
    let t = AnnotatedType::Pointer(Box::new(AnnotatedType::Pointer(Box::new(
        AnnotatedType::Primitive("i32".to_string()),
    ))));
    assert_eq!(
        ValueType::from_annotated_type(t),
        ValueType::Pointer(Box::new(ValueType::Pointer(Box::new(ValueType::Integer {
            bits: 32,
            unsigned: false,
        }))))
    );
}

#[test]
fn resolver_maps_void_return_type() {
    assert_eq!(ValueType::from_return_type(ReturnType::Void), ValueType::Void);
}

#[test]
fn unsupported_names_do_not_resolve() {
    assert!(!AnnotatedType::Primitive("f20".to_string()).is_resolvable());
    assert!(!AnnotatedType::Primitive("i0".to_string()).is_resolvable());
    assert!(!AnnotatedType::Primitive("u70000".to_string()).is_resolvable());
    assert!(!AnnotatedType::Primitive("word".to_string()).is_resolvable());
    assert!(AnnotatedType::Primitive("f128".to_string()).is_resolvable());
    assert!(AnnotatedType::Primitive("u65535".to_string()).is_resolvable());
}

#[test]
fn classification_reads_widths() {
    let t = AnnotatedType::Primitive("i7".to_string());
    assert!(t.is_int());
    assert!(!t.is_unsigned());
    assert_eq!(t.get_int_bitwidth(), Some(7));
    let u = AnnotatedType::Primitive("u16".to_string());
    assert!(u.is_unsigned());
    assert_eq!(u.get_unsigned_bitwidth(), Some(16));
    let f = AnnotatedType::Primitive("f16".to_string());
    assert!(f.is_float());
    assert_eq!(f.get_float_bitwidth(), Some(FloatWidth::F16));
    assert_eq!(AnnotatedType::Primitive("f20".to_string()).get_float_bitwidth(), None);
}

#[test]
fn type_map_inserts_and_replaces() {
    let mut map = ZastTypeMap::new();
    let key = AnnotatedType::Primitive("i32".to_string());
    map.add_mapping(key.clone(), ValueType::Bool);
    assert_eq!(*map.resolve_mapping(key.clone()).unwrap(), ValueType::Bool);
    map.add_mapping(key.clone(), ValueType::Void);
    assert_eq!(*map.resolve_mapping(key).unwrap(), ValueType::Void);
    assert!(map
        .resolve_mapping(AnnotatedType::Primitive("u8".to_string()))
        .is_none());
}

#[test]
fn emitter_lowers_each_function_to_one_instruction() {
    let program = parse("fn main(a: i32): u8 {} fn other(): void {}");
    let ir = ZastIREmitter::new().emit(&program);
    assert_eq!(ir.instructions.len(), 2);
    match &ir.instructions[0] {
        ZastIRInstruction::FunctionDecl { name, params, return_type, body } => {
            assert_eq!(name, "main");
            assert_eq!(params.len(), 1);
            assert_eq!(params[0].0, "a");
            assert_eq!(params[0].1, ValueType::Integer { bits: 32, unsigned: false });
            assert_eq!(*return_type, ValueType::Integer { bits: 8, unsigned: true });
            assert_eq!(body.len(), 0);
        }
        _ => panic!("expected a function instruction"),
    }
}

#[test]
fn tokens_classify_keywords_and_literals() {
    let t = Token::from_keyword("let", sp(1, 3));
    assert_eq!(t.kind, TokenKind::Let);
    let t = Token::from_keyword("const", sp(1, 5));
    assert_eq!(t.kind, TokenKind::Const);
    let t = Token::from_keyword("fn", sp(1, 2));
    assert_eq!(t.kind, TokenKind::Fn);
    let t = Token::from_keyword("foo", sp(1, 3));
    assert_eq!(t.kind, TokenKind::Identifier);
    match t.literal {
        Literal::Identifier(name) => assert_eq!(name, "foo"),
        _ => panic!("an identifier token should carry its name"),
    }
    assert!(TokenKind::Integer.is_literal_value());
    assert!(!TokenKind::Plus.is_literal_value());
    assert_eq!(Literal::IntegerValue(4).get_int(), Some(4));
    assert_eq!(Literal::IntegerValue(4).get_string(), None);
}
