//! Driver library for an addressable-register temperature sensor on a shared
//! serial bus: a register read/write protocol, a bit-exact temperature codec,
//! and a bounded producer/consumer batching pipeline.
//!
//! The bus transactions themselves are left to the caller: every operation
//! here either prepares a transaction (a pointer byte to write, a frame of
//! bytes to send) or interprets the bytes a transaction produced.

pub mod batch;
pub mod mcp9808;
pub mod measurement;
pub mod pipeline;
pub mod registers;
