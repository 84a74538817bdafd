//! Register-file layout: the ten register slots and the three condition
//! flags. R0 through R7 are the general registers, slot 8 is the program
//! counter and slot 9 the condition-flag register, which always holds
//! exactly one of the three flag words after any flag-updating operation.

use vstd::prelude::*;

verus! {

/// Index of general register R0.
pub const R0: u16 = 0;

/// Index of general register R1.
pub const R1: u16 = 1;

/// Index of general register R2.
pub const R2: u16 = 2;

/// Index of general register R3.
pub const R3: u16 = 3;

/// Index of general register R4.
pub const R4: u16 = 4;

/// Index of general register R5.
pub const R5: u16 = 5;

/// Index of general register R6.
pub const R6: u16 = 6;

/// Index of general register R7, the link register: JSR and JSRR save the
/// return address here.
pub const R7: u16 = 7;

/// Index of the program counter: the address of the next word to fetch.
pub const RPC: u16 = 8;

/// Index of the condition-flag register.
pub const RCOND: u16 = 9;

/// Number of register slots: eight general registers, PC and COND.
pub const NUM_REGISTERS: usize = 10;

/// Condition flag: the last value written was positive.
pub const FL_POS: u16 = 1;

/// Condition flag: the last value written was zero.
pub const FL_ZRO: u16 = 2;

/// Condition flag: the last value written was negative (high bit set).
pub const FL_NEG: u16 = 4;

} // verus!
