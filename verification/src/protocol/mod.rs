pub mod codes;
pub mod parser;
