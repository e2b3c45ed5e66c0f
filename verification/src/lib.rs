//! An instruction-set simulator for the RV32I base integer architecture.
//!
//! The crate is organised around a pure fetch/decode/execute pipeline:
//! raw 32-bit words are decoded into typed instruction records, a pure
//! executor describes each instruction's effect, and the CPU is the sole
//! component that mutates the register file, the memory and the program
//! counter.

pub mod components;
pub mod decoder;
pub mod instruction_formats;
pub mod loader;
pub mod stages;
pub mod util;

pub use components::{CPUError, MemoryError, CPU};
pub use stages::{DecodeError, ExecuteError};
