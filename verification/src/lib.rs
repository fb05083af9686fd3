//! Vyrn: a small statically typed language with a lexer, a recursive-descent
//! parser, code-generation rules and language-server queries.

pub mod text;
pub mod token;
pub mod lexer;
pub mod ast;
pub mod parser;
pub mod docs;
pub mod lsp;
pub mod queries;
pub mod table;
pub mod server;
pub mod ir;
pub mod emit;
pub mod compile;
pub mod frame;
pub mod builtins;
pub mod parse_laws;
pub mod laws;
