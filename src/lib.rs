//! A small stack-based bytecode virtual machine: an opcode vocabulary, a
//! chunk of bytecode with its line table and constant pool, a disassembler
//! and an interpreter that executes a chunk one instruction at a time.
//!
//! Runtime values are IEEE-754 binary64 numbers, carried here as their bit
//! patterns; the arithmetic on them is done by the embedding program, which
//! the interpreter asks for each arithmetic result.

pub mod ops;
pub mod value;
pub mod chunk;
pub mod disassemble;
pub mod vm;
