//! Filter descriptions: mask operands in their two generations.

pub mod mask;
pub mod operand;
