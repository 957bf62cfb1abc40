//! A verified interpreter core for the Game Boy's SM83 processor.
//!
//! The crate holds the register file, the arithmetic/logic unit, the memory
//! map, the instruction decoder and the execution dispatcher.  Every
//! executable function carries a contract that Verus proves.

pub mod cpu;
pub mod error;
pub mod graphics;
pub mod instructions;
pub mod interrupt;
pub mod memory_mapping;
pub mod pacing;
pub mod registers;
pub mod timer;
