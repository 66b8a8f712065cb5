//! A virtual machine for a small register-based instruction set over a
//! 15-bit address space.

pub mod instruction;
pub mod laws;
pub mod machine;
pub mod vm;
pub mod word;

pub use instruction::{Fault, Instruction, Literal, Number, Register, Status};
pub use machine::State;
pub use vm::VM;
