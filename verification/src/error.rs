//! The errors that a memory access or a step of the processor can report.

use vstd::prelude::*;

verus! {

#[derive(Debug, Clone, Copy, PartialEq, Eq)]
pub enum CoreError {
    /// No region of the memory map covers the address.
    UnmappedAddress(u16),
    /// The address lies in ROM and was written to.
    ReadOnlyViolation(u16),
    /// The opcode is none of the processor's.
    IllegalOpcode(u8),
    /// The instruction that the opcode stands for has a form that the
    /// dispatcher does not execute.
    UnimplementedOpcode(u8),
}

} // verus!
