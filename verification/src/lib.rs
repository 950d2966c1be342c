//! A SPARQL language server library: lexing, parsing, the syntax tree and
//! its typed views, and the server's protocol logic.

pub mod ast;
pub mod configuration;
pub mod lexer;
pub mod lsp;
pub mod parser;
pub mod result_reader;
pub mod results;
pub mod syntax_kind;
pub mod syntax_tree;

pub use parser::{
    determine_operation_type, guess_operation_type, guess_query_type, parse, parse_query,
    parse_update, ParseError, QueryType, TopEntryPoint,
};
