//! Front end of the Zast language: a Pratt parser from tokens to a
//! validated abstract syntax tree, a type resolver, a scoped symbol
//! table and a semantic analyzer, with ordered diagnostic collection.

pub mod ast;
pub mod error_handler;
pub mod parser;
pub mod sema;
pub mod tokens;
pub mod types;
pub mod zast_ir;
