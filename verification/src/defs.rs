//! The machine's data: registers, memory, opcodes, trap vectors, condition
//! flags, the console buffers and the error kinds.

pub mod cond_flags;
pub mod console;
pub mod error;
pub mod machine;
pub mod memory;
pub mod opcode;
pub mod register;
pub mod traps;
