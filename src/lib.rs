pub mod ast;
pub mod codegen;
pub mod diag;
pub mod grammar;
pub mod inst;
pub mod laws;
pub mod lexer;
pub mod machine;
pub mod parser;
pub mod text;
pub mod token;
