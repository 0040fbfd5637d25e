//! Front end for a contract-language expression grammar: a character-level
//! tokenizer that turns source text into classified tokens, and a
//! recursive-descent expression parser that assembles those tokens into a
//! precedence-correct syntax tree, together with a canonical string rendering
//! of that tree.

pub mod token;
pub mod scan;
pub mod lexer;
pub mod expression;
pub mod ast;
pub mod parser;
