//! Execution core of a small bytecode runtime: a compact binary instruction
//! format (`Chunk`), a disassembler that decodes that format for inspection,
//! and a stack-based virtual machine (`VM`) that executes it.
//!
//! A producer builds a `Chunk` by appending opcodes, operands and constants;
//! the finished chunk is then handed by reference to the `VM`, which runs it
//! to completion or failure, or to the disassembler, which walks it read-only.

mod chunk;
pub mod debug;
mod value;
mod vm;

pub use chunk::{Chunk, ChunkView, OpCode};
pub use value::Value;
pub use vm::{InterpretError, RunOutcome, VM};
