//! Compilation of MeTTa expressions to bytecode.

pub mod error;
pub mod context;
pub mod folding;
pub mod work_item;
pub mod semantics;
pub mod codegen;
pub mod forms;
pub mod builtins;
pub mod iterative;
pub mod expand;

pub use codegen::{Compiler, compile, compile_arc};
pub use context::{CompileContext, Upvalue};
pub use error::CompileError;
