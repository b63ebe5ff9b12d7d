pub mod import;
pub mod ast;
pub mod grammar;
pub mod parser;
