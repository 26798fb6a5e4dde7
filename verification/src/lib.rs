//! Bytecode compilation and static analysis for MeTTa expressions.

pub mod value;
pub mod opcode;
pub mod text;
pub mod chunk;
pub mod builtin_signatures;
pub mod compiler;
pub mod cache;
pub mod builtin_chunks;
pub mod analysis;
