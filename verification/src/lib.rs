//! Static analysis of JVM bytecode: basic-block construction and
//! type-level simulation of the operand stack.

pub mod cfg;
pub mod descriptor;
pub mod effect;
pub mod error;
pub mod instruction;
pub mod pool;
pub mod stack;
pub mod value;
