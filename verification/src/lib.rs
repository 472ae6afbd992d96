//! A minimal on-chain program with a single instruction, `initialize`,
//! which validates nothing, changes no state, and succeeds after emitting
//! one log line that names the program's own identifier.
//!
//! The host runtime supplies the execution context and performs the actual
//! log emission; this crate holds the program's logic: what the instruction
//! returns and what the log line says.

pub mod id;
pub mod instruction;
