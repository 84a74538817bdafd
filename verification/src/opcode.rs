//! The sixteen opcodes of the architecture and their 4-bit numeric tags.

use vstd::prelude::*;

verus! {

/// One of the sixteen instruction tags, taken from the high four bits of an
/// instruction word. `Rti` and `Res` decode structurally but carry no
/// execution semantics: running them is a fatal error.
#[derive(Clone, Copy, Debug, PartialEq, Eq, Structural)]
pub enum Opcode {
    Br,
    Add,
    Ld,
    St,
    Jsr,
    And,
    Ldr,
    Str,
    Rti,
    Not,
    Ldi,
    Sti,
    Jmp,
    Res,
    Lea,
    Trap,
}

/// The numeric tag of each opcode, 0 through 15.
pub open spec fn spec_opcode_bits(op: Opcode) -> u16 {
    match op {
        Opcode::Br => 0,
        Opcode::Add => 1,
        Opcode::Ld => 2,
        Opcode::St => 3,
        Opcode::Jsr => 4,
        Opcode::And => 5,
        Opcode::Ldr => 6,
        Opcode::Str => 7,
        Opcode::Rti => 8,
        Opcode::Not => 9,
        Opcode::Ldi => 10,
        Opcode::Sti => 11,
        Opcode::Jmp => 12,
        Opcode::Res => 13,
        Opcode::Lea => 14,
        Opcode::Trap => 15,
    }
}

/// The opcode denoted by a 4-bit tag.
pub open spec fn spec_opcode_of(bits: u16) -> Opcode
    recommends
        bits < 16,
{
    if bits == 0 {
        Opcode::Br
    } else if bits == 1 {
        Opcode::Add
    } else if bits == 2 {
        Opcode::Ld
    } else if bits == 3 {
        Opcode::St
    } else if bits == 4 {
        Opcode::Jsr
    } else if bits == 5 {
        Opcode::And
    } else if bits == 6 {
        Opcode::Ldr
    } else if bits == 7 {
        Opcode::Str
    } else if bits == 8 {
        Opcode::Rti
    } else if bits == 9 {
        Opcode::Not
    } else if bits == 10 {
        Opcode::Ldi
    } else if bits == 11 {
        Opcode::Sti
    } else if bits == 12 {
        Opcode::Jmp
    } else if bits == 13 {
        Opcode::Res
    } else if bits == 14 {
        Opcode::Lea
    } else {
        Opcode::Trap
    }
}

impl Opcode {
    /// The numeric tag of this opcode.
    pub fn bits(self) -> (r: u16)
        ensures
            r == spec_opcode_bits(self),
            r < 16,
    {
        match self {
            Opcode::Br => 0,
            Opcode::Add => 1,
            Opcode::Ld => 2,
            Opcode::St => 3,
            Opcode::Jsr => 4,
            Opcode::And => 5,
            Opcode::Ldr => 6,
            Opcode::Str => 7,
            Opcode::Rti => 8,
            Opcode::Not => 9,
            Opcode::Ldi => 10,
            Opcode::Sti => 11,
            Opcode::Jmp => 12,
            Opcode::Res => 13,
            Opcode::Lea => 14,
            Opcode::Trap => 15,
        }
    }

    /// The opcode with the given 4-bit tag. Every tag below 16 names one.
    pub fn from_bits(bits: u16) -> (r: Opcode)
        requires
            bits < 16,
        ensures
            r == spec_opcode_of(bits),
    {
        if bits == 0 {
            Opcode::Br
        } else if bits == 1 {
            Opcode::Add
        } else if bits == 2 {
            Opcode::Ld
        } else if bits == 3 {
            Opcode::St
        } else if bits == 4 {
            Opcode::Jsr
        } else if bits == 5 {
            Opcode::And
        } else if bits == 6 {
            Opcode::Ldr
        } else if bits == 7 {
            Opcode::Str
        } else if bits == 8 {
            Opcode::Rti
        } else if bits == 9 {
            Opcode::Not
        } else if bits == 10 {
            Opcode::Ldi
        } else if bits == 11 {
            Opcode::Sti
        } else if bits == 12 {
            Opcode::Jmp
        } else if bits == 13 {
            Opcode::Res
        } else if bits == 14 {
            Opcode::Lea
        } else {
            Opcode::Trap
        }
    }
}

/// Decoding a tag and re-encoding it gives the tag back.
pub proof fn lemma_opcode_bits_of(bits: u16)
    requires
        bits < 16,
    ensures
        spec_opcode_bits(spec_opcode_of(bits)) == bits,
{
}

/// Encoding an opcode and decoding the tag gives the opcode back.
pub proof fn lemma_opcode_of_bits(op: Opcode)
    ensures
        spec_opcode_of(spec_opcode_bits(op)) == op,
{
}

} // verus!
