//! The failure modes of the machine. Decoding never fails: every 16-bit word
//! names some instruction. Everything that can go wrong afterwards is one of
//! these tagged, unrecoverable conditions.

use vstd::prelude::*;
use crate::opcode::Opcode;

verus! {

/// A fatal condition reported by the machine instead of a panic.
#[derive(Clone, Copy, Debug, PartialEq, Eq, Structural)]
pub enum VmError {
    /// RTI or RES was executed or encoded: the two opcodes carry no defined
    /// semantics and must fail rather than behave silently.
    IllegalOpcode(Opcode),
    /// A TRAP instruction named a vector outside the six defined routines
    /// 0x20 through 0x25.
    InvalidTrap(u16),
    /// A program to load held no words at all, so it has no origin.
    EmptyProgram,
    /// A program's origin plus its length overruns the 65536-word address
    /// space; it is rejected before any word is written.
    ProgramTooLarge,
    /// A blocking read found the input tape exhausted: the input stream is
    /// closed, which is unrecoverable.
    InputExhausted,
    /// A program file held an odd number of bytes, so its big-endian words
    /// cannot be paired up.
    MalformedFile,
    /// A mnemonic line could not be parsed back into an instruction.
    BadMnemonic,
}

} // verus!
