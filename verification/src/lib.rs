//! A Game Boy (DMG) CPU core: flag and register files, the memory bus,
//! the instruction decoder and the interpreter, each with its contract.

pub mod alu;
pub mod cpu;
mod cpu_alu;
mod cpu_control;
mod cpu_load;
mod cpu_ops;
mod cpu_prefix;
pub mod flags;
pub mod instruction;
pub mod laws;
pub mod memory;
pub mod registers;
pub mod semantics;
