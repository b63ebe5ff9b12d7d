pub mod ast;
pub mod benchmarking;
pub mod errors;
pub mod executor;
pub mod import;
pub mod lexer;
pub mod parser;
pub mod resolver;
pub mod semantic;
pub mod testing;
pub mod text;
pub mod visitor;
pub mod vm;
