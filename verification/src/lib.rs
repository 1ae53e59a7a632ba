//! A guest module for a WebAssembly host, as an explicit state object.
//!
//! The module owns one signed 32-bit integer, `GLOBAL`, and offers the host
//! two entrypoints: the standard entrypoint, which stores 2 in `GLOBAL` and
//! greets, and the callback `onBlockchainInit`, which reads `GLOBAL` and
//! greets with its value. Neither entrypoint writes to standard output here:
//! each returns the line that the embedding program is to print.
//!
//! * [`decimal`]: the decimal text of an integer.
//! * [`guest`]: the instance and its two entrypoints.
//! * [`trace`]: what a sequence of host calls does to an instance, and the
//!   laws that hold of every such sequence.

pub mod decimal;
pub mod guest;
pub mod trace;

pub use guest::{onBlockchainInit, Instance};
