//! The program tree the parser builds: expressions, statements and their
//! spec-level views.

use vstd::prelude::*;

use crate::tokens::{Span, TokenKind};
use crate::types::annotated_type::{AnnotatedType, AnnotatedTypeV};
use crate::types::return_type::{ReturnType, ReturnTypeV};

verus! {

/// A node together with the source range it covers.
#[derive(Debug)]
pub struct Spanned<T> {
    pub node: T,
    pub span: Span,
}

/// An expression with its span.
pub type Expression = Spanned<Expr>;

/// An expression node. Each case owns its children exclusively; the tree
/// has no sharing and no cycles. A float literal carries its raw source
/// text (see [`crate::tokens::Literal`]).
#[derive(Debug)]
pub enum Expr {
    IntegerLiteral(i64),
    FloatLiteral(String),
    Identifier(String),
    Address(Box<Expression>),
    Dereference(Box<Expression>),
    BinaryExpression { left: Box<Expression>, operator: TokenKind, right: Box<Expression> },
}

/// A statement with its span.
pub type Statement = Spanned<Stmt>;

/// A statement node. A function body is always a
/// [`Stmt::BlockStatement`].
#[derive(Debug)]
pub enum Stmt {
    FunctionDeclaration {
        name: String,
        parameters: Vec<FunctionParameter>,
        return_type: ReturnType,
        body: Box<Statement>,
    },
    BlockStatement { statements: Vec<Box<Statement>> },
    Expression { expression: Expression },
    VariableDeclaration {
        mutable: bool,
        identifier: String,
        annotated_type: AnnotatedType,
        value: Expression,
    },
}

/// A name-type pair of a function signature, with the source range of
/// the parameter, kept so a duplicate parameter can cite it.
#[derive(Debug)]
pub struct FunctionParameter {
    pub name: String,
    pub annotated_type: AnnotatedType,
    pub span: Span,
}

/// A whole parsed program: its top-level statements in source order.
#[derive(Debug)]
pub struct ZastProgram {
    pub body: Vec<Statement>,
}

impl Stmt {
    /// Attaches a span to this statement node.
    pub fn spanned(self, span: Span) -> (r: Spanned<Stmt>)
        ensures
            r.node == self,
            r.span == span,
    {
        Spanned { node: self, span }
    }
}

impl Expr {
    /// Attaches a span to this expression node.
    pub fn spanned(self, span: Span) -> (r: Spanned<Expr>)
        ensures
            r.node == self,
            r.span == span,
    {
        Spanned { node: self, span }
    }
}

/// The spec-level value of an [`Expression`]: node shape plus span, with
/// strings as character sequences.
pub struct ExpressionV {
    pub node: ExprV,
    pub span: Span,
}

/// The spec-level value of an [`Expr`].
pub enum ExprV {
    IntegerLiteral(i64),
    FloatLiteral(Seq<char>),
    Identifier(Seq<char>),
    Address(Box<ExpressionV>),
    Dereference(Box<ExpressionV>),
    BinaryExpression { left: Box<ExpressionV>, operator: TokenKind, right: Box<ExpressionV> },
}

/// The spec-level value of a [`Statement`].
pub struct StatementV {
    pub node: StmtV,
    pub span: Span,
}

/// The spec-level value of a [`Stmt`].
pub enum StmtV {
    FunctionDeclaration {
        name: Seq<char>,
        parameters: Seq<FunctionParameterV>,
        return_type: ReturnTypeV,
        body: Box<StatementV>,
    },
    BlockStatement { statements: Seq<StatementV> },
    Expression { expression: ExpressionV },
    VariableDeclaration {
        mutable: bool,
        identifier: Seq<char>,
        annotated_type: AnnotatedTypeV,
        value: ExpressionV,
    },
}

/// The spec-level value of a [`FunctionParameter`].
pub struct FunctionParameterV {
    pub name: Seq<char>,
    pub annotated_type: AnnotatedTypeV,
    pub span: Span,
}

/// The views of a sequence of boxed statements, in order.
pub open spec fn stmts_view(ss: Seq<Box<Statement>>) -> Seq<StatementV>
    decreases ss,
{
    if ss.len() == 0 {
        Seq::<StatementV>::empty()
    } else {
        stmts_view(ss.drop_last()).push((*ss.last())@)
    }
}

impl View for Expression {
    type V = ExpressionV;

    open spec fn view(&self) -> ExpressionV
        decreases self,
    {
        ExpressionV {
            span: self.span,
            node: match self.node {
                Expr::IntegerLiteral(i) => ExprV::IntegerLiteral(i),
                Expr::FloatLiteral(s) => ExprV::FloatLiteral(s@),
                Expr::Identifier(s) => ExprV::Identifier(s@),
                Expr::Address(inner) => ExprV::Address(Box::new((*inner)@)),
                Expr::Dereference(inner) => ExprV::Dereference(Box::new((*inner)@)),
                Expr::BinaryExpression { left, operator, right } => ExprV::BinaryExpression {
                    left: Box::new((*left)@),
                    operator,
                    right: Box::new((*right)@),
                },
            },
        }
    }
}

impl View for FunctionParameter {
    type V = FunctionParameterV;

    open spec fn view(&self) -> FunctionParameterV {
        FunctionParameterV {
            name: self.name@,
            annotated_type: self.annotated_type@,
            span: self.span,
        }
    }
}

impl View for Statement {
    type V = StatementV;

    open spec fn view(&self) -> StatementV
        decreases self,
    {
        StatementV {
            span: self.span,
            node: match self.node {
                Stmt::FunctionDeclaration { name, parameters, return_type, body } => {
                    StmtV::FunctionDeclaration {
                        name: name@,
                        parameters: parameters@.map_values(|p: FunctionParameter| p@),
                        return_type: return_type@,
                        body: Box::new((*body)@),
                    }
                },
                Stmt::BlockStatement { statements } => StmtV::BlockStatement {
                    statements: stmts_view(statements@),
                },
                Stmt::Expression { expression } => StmtV::Expression { expression: expression@ },
                Stmt::VariableDeclaration { mutable, identifier, annotated_type, value } => {
                    StmtV::VariableDeclaration {
                        mutable,
                        identifier: identifier@,
                        annotated_type: annotated_type@,
                        value: value@,
                    }
                },
            },
        }
    }
}

impl View for ZastProgram {
    type V = Seq<StatementV>;

    open spec fn view(&self) -> Seq<StatementV> {
        self.body@.map_values(|s: Statement| s@)
    }
}

} // verus!
