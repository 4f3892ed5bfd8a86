//! A minimal just-in-time expression-compilation core.
//!
//! The library builds an in-memory intermediate representation (IR) for a
//! function: a module owns an arena of functions, each function a list of
//! basic blocks, each block an ordered list of instructions.  A cursor-based
//! builder lowers a small algebra of operations into a block, giving every
//! instruction a unique, strictly increasing name.  A finished module is
//! checked for structural well-formedness and then handed to an execution
//! engine, which evaluates its functions.

pub mod engine;
pub mod execution;
pub mod names;
pub mod response;
pub mod verify;
