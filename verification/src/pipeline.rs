//! Pipeline descriptions: the tokenizer and the selection-step operand.

pub mod operand;
pub mod parser;
