//! Source locations and the token model handed over by the scanner.

use vstd::prelude::*;

verus! {

broadcast use vstd::string::group_string_axioms;

/// A source range, 1-based in both lines and columns. A single-character
/// token on line 3, column 7 has `ln_start == ln_end == 3` and
/// `col_start == col_end == 7`.
#[derive(Debug, Clone, Copy, PartialEq, Eq, Structural)]
pub struct Span {
    /// 1-based column of the first character.
    pub col_start: usize,
    /// 1-based column of the last character.
    pub col_end: usize,
    /// 1-based line of the first character.
    pub ln_start: usize,
    /// 1-based line of the last character.
    pub ln_end: usize,
}

impl Span {
    /// The zero span, used by the end-of-stream sentinel token.
    pub fn zero() -> (r: Span)
        ensures
            r == (Span { col_start: 0, col_end: 0, ln_start: 0, ln_end: 0 }),
    {
        Span { col_start: 0, col_end: 0, ln_start: 0, ln_end: 0 }
    }
}

/// Every kind of token the scanner produces.
#[derive(Debug, Clone, Copy, PartialEq, Eq, Structural)]
pub enum TokenKind {
    /// A character or sequence that matches no known lexeme.
    Illegal,
    /// Marks the end of the token stream.
    Eof,
    /// A string literal; the carried value excludes the quotes.
    String,
    /// A user-defined name such as `foo` or `_bar`.
    Identifier,
    /// An integer literal such as `42`.
    Integer,
    /// A floating-point literal such as `3.14`.
    Float,
    /// `;`
    Semicolon,
    /// `,`
    Comma,
    /// `:`
    Colon,
    /// `=`
    Assignment,
    /// `.`
    Dot,
    /// `+`
    Plus,
    /// `-`
    Minus,
    /// `*`
    Multiply,
    /// `/`
    Divide,
    /// `&`
    Ampersand,
    /// `(`
    LeftParenthesis,
    /// `)`
    RightParenthesis,
    /// `{`
    LeftBrace,
    /// `}`
    RightBrace,
    /// The `let` keyword: a mutable variable declaration.
    Let,
    /// The `const` keyword: an immutable variable declaration.
    Const,
    /// The `fn` keyword: a function declaration.
    Fn,
}

/// The literal value carried by a token. Only literal-valued kinds carry
/// a payload; operators, punctuation and keywords carry [`Literal::NoValue`].
/// A float literal keeps its raw source text: its numeric reading belongs
/// to later phases, not to this front end.
#[derive(Debug)]
pub enum Literal {
    /// The contents of a string literal, excluding the quotes.
    StringValue(String),
    /// The value of an integer literal.
    IntegerValue(i64),
    /// The raw source text of a floating-point literal.
    FloatValue(String),
    /// The name of an identifier.
    Identifier(String),
    /// No literal value.
    NoValue,
}

/// The spec-level value of a [`Literal`], with strings as character sequences.
pub enum LiteralV {
    StringValue(Seq<char>),
    IntegerValue(i64),
    FloatValue(Seq<char>),
    Identifier(Seq<char>),
    NoValue,
}

impl View for Literal {
    type V = LiteralV;

    open spec fn view(&self) -> LiteralV {
        match self {
            Literal::StringValue(s) => LiteralV::StringValue(s@),
            Literal::IntegerValue(i) => LiteralV::IntegerValue(*i),
            Literal::FloatValue(s) => LiteralV::FloatValue(s@),
            Literal::Identifier(s) => LiteralV::Identifier(s@),
            Literal::NoValue => LiteralV::NoValue,
        }
    }
}

impl Literal {
    /// Returns the inner string value if this is a [`Literal::StringValue`].
    pub fn get_string(&self) -> (r: Option<String>)
        ensures
            r matches Some(v) ==> self@ == LiteralV::StringValue(v@),
            r is None ==> !(self@ is StringValue),
    {
        match self {
            Literal::StringValue(v) => Some(v.clone()),
            _ => None,
        }
    }

    /// Returns the inner integer value if this is a [`Literal::IntegerValue`].
    pub fn get_int(&self) -> (r: Option<i64>)
        ensures
            r matches Some(v) ==> self@ == LiteralV::IntegerValue(v),
            r is None ==> !(self@ is IntegerValue),
    {
        match self {
            Literal::IntegerValue(v) => Some(*v),
            _ => None,
        }
    }

    /// Returns the raw source text if this is a [`Literal::FloatValue`].
    pub fn get_float(&self) -> (r: Option<String>)
        ensures
            r matches Some(v) ==> self@ == LiteralV::FloatValue(v@),
            r is None ==> !(self@ is FloatValue),
    {
        match self {
            Literal::FloatValue(v) => Some(v.clone()),
            _ => None,
        }
    }

    /// Returns the inner name if this is a [`Literal::Identifier`].
    pub fn get_identifier(&self) -> (r: Option<String>)
        ensures
            r matches Some(v) ==> self@ == LiteralV::Identifier(v@),
            r is None ==> !(self@ is Identifier),
    {
        match self {
            Literal::Identifier(v) => Some(v.clone()),
            _ => None,
        }
    }
}

impl TokenKind {
    /// Returns `true` if this token kind carries a literal value rather
    /// than being purely structural.
    pub fn is_literal_value(&self) -> (r: bool)
        ensures
            r == (self is Identifier || self is Integer || self is String
                || self is Float),
    {
        match self {
            TokenKind::Identifier | TokenKind::Integer | TokenKind::String
            | TokenKind::Float => true,
            _ => false,
        }
    }
}

/// A single lexeme produced by the scanner: its classification, literal
/// payload, raw source text and location.
#[derive(Debug)]
pub struct Token {
    /// The classified literal value, if any.
    pub literal: Literal,
    /// The raw source text of the token.
    pub lexeme: String,
    /// Where the token appeared.
    pub span: Span,
    /// The classification of the token.
    pub kind: TokenKind,
}

/// The spec-level value of a [`Token`].
pub struct TokenV {
    pub literal: LiteralV,
    pub lexeme: Seq<char>,
    pub span: Span,
    pub kind: TokenKind,
}

impl View for Token {
    type V = TokenV;

    open spec fn view(&self) -> TokenV {
        TokenV {
            literal: self.literal@,
            lexeme: self.lexeme@,
            span: self.span,
            kind: self.kind,
        }
    }
}

impl Token {
    /// Classifies a scanned identifier string: reserved words get their
    /// keyword kind, anything else becomes an identifier token carrying
    /// its own name.
    pub fn from_keyword(keyword: &str, span: Span) -> (r: Token)
        ensures
            r.span == span,
            r@.lexeme == keyword@,
            keyword@ == "let"@ ==> r.kind == TokenKind::Let && r@.literal is NoValue,
            keyword@ == "const"@ ==> r.kind == TokenKind::Const && r@.literal is NoValue,
            keyword@ == "fn"@ ==> r.kind == TokenKind::Fn && r@.literal is NoValue,
            (keyword@ != "let"@ && keyword@ != "const"@ && keyword@ != "fn"@)
                ==> r.kind == TokenKind::Identifier
                    && r@.literal == LiteralV::Identifier(keyword@),
    {
        let token_kind = if str_eq(keyword, "let") {
            TokenKind::Let
        } else if str_eq(keyword, "const") {
            TokenKind::Const
        } else if str_eq(keyword, "fn") {
            TokenKind::Fn
        } else {
            TokenKind::Identifier
        };

        proof {
            reveal_strlit("let");
            reveal_strlit("const");
            reveal_strlit("fn");
            assert("let"@.len() == 3);
            assert("const"@.len() == 5);
            assert("let"@ != "const"@);
            assert("fn"@ != "const"@);
            assert("let"@ != "fn"@);
            assert(keyword@ == "let"@ ==> token_kind == TokenKind::Let);
            assert(keyword@ == "const"@ ==> token_kind == TokenKind::Const);
            assert(keyword@ == "fn"@ ==> token_kind == TokenKind::Fn);
        }
        let literal = match token_kind {
            TokenKind::Identifier => Literal::Identifier(keyword.to_owned()),
            _ => Literal::NoValue,
        };

        Token { literal, lexeme: keyword.to_owned(), span, kind: token_kind }
    }

}

impl Default for Token {
    /// An end-of-stream token with an empty lexeme and a zeroed span:
    /// a safe sentinel when the stream is exhausted.
    fn default() -> (r: Token)
        ensures
            r.kind == TokenKind::Eof,
            r@.literal is NoValue,
            r@.lexeme == Seq::<char>::empty(),
            r.span == (Span { col_start: 0, col_end: 0, ln_start: 0, ln_end: 0 }),
    {
        Token {
            literal: Literal::NoValue,
            lexeme: String::new(),
            span: Span::zero(),
            kind: TokenKind::Eof,
        }
    }
}

/// Character-for-character comparison of two string slices.
pub fn str_eq(a: &str, b: &str) -> (r: bool)
    ensures
        r == (a@ == b@),
{
    let sa: String = a.to_owned();
    let sb: String = b.to_owned();
    sa == sb
}

} // verus!
