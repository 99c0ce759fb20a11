//! Execution core of a register-based WebAssembly interpreter.
//!
//! A function body is a flat sequence of tagged instruction words operating
//! over virtual registers that live in a window of a contiguous value stack.
//! The dispatch loop drives such a body to completion, producing result
//! values, a typed trap, or a suspension (for a host-function invocation or
//! an exhausted step budget).

pub mod trap;
pub mod value;
pub mod bytecode;
pub mod seqs;
pub mod code;
pub mod stack;
pub mod store;
pub mod machine;
pub mod executor;
pub mod laws;
