//! The instruction codec: the bidirectional mapping between a raw 16-bit
//! word and a structured, opcode-tagged instruction. Decoding is total —
//! every word names some instruction, RTI and RES included — while encoding
//! refuses RTI and RES, whose operand layout is undefined.

use vstd::prelude::*;
use crate::error::VmError;
use crate::opcode::Opcode;
use crate::opcode::spec_opcode_bits;
use crate::opcode::spec_opcode_of;

verus! {

/// A structured view of one instruction word. Only the fields meaningful to
/// `opcode` are populated; every other field is zero and consumers must
/// ignore it (the well-formedness predicate `wf` states this exactly).
#[derive(Clone, Copy, Debug, PartialEq, Eq, Structural)]
pub struct Instruction {
    pub opcode: Opcode,
    /// Destination register, bits 11:9.
    pub dr: u16,
    /// First source register, bits 8:6 (bits 11:9 for the stores).
    pub sr1: u16,
    /// Second source register, bits 2:0, when the mode bit is clear.
    pub sr2: u16,
    /// 5-bit immediate operand, bits 4:0, when the mode bit is set.
    pub imm5: u16,
    /// The 1-bit mode flag: operand-2 mode for ADD/AND (bit 5), addressing
    /// mode for JSR (bit 11).
    pub imm_or_cond_flag: u16,
    /// 3-bit condition mask for BR, bits 11:9.
    pub nzp: u16,
    /// Base register, bits 8:6.
    pub base_r: u16,
    /// 6-bit base-relative offset, bits 5:0.
    pub offset_6: u16,
    /// 8-bit trap vector, bits 7:0.
    pub trap_vect_8: u16,
    /// 9-bit PC-relative offset, bits 8:0.
    pub pc_offset_9: u16,
    /// 11-bit PC-relative offset for JSR, bits 10:0.
    pub pc_offset_11: u16,
}

impl Instruction {
    /// A bare instruction of the given opcode with every field zero.
    pub open spec fn spec_new(opcode: Opcode) -> Instruction {
        Instruction {
            opcode,
            dr: 0,
            sr1: 0,
            sr2: 0,
            imm5: 0,
            imm_or_cond_flag: 0,
            nzp: 0,
            base_r: 0,
            offset_6: 0,
            trap_vect_8: 0,
            pc_offset_9: 0,
            pc_offset_11: 0,
        }
    }

    /// Builds the bare instruction of the given opcode, all fields zero.
    pub fn new(opcode: Opcode) -> (r: Instruction)
        ensures
            r == Instruction::spec_new(opcode),
            r.wf(),
    {
        Instruction {
            opcode,
            dr: 0,
            sr1: 0,
            sr2: 0,
            imm5: 0,
            imm_or_cond_flag: 0,
            nzp: 0,
            base_r: 0,
            offset_6: 0,
            trap_vect_8: 0,
            pc_offset_9: 0,
            pc_offset_11: 0,
        }
    }

    /// Well-formedness: the fields meaningful to the opcode are within their
    /// bit widths, and every other field is zero.
    pub open spec fn wf(self) -> bool {
        match self.opcode {
            Opcode::Br => self.nzp < 8 && self.pc_offset_9 < 512 && self.dr == 0 && self.sr1 == 0
                && self.sr2 == 0 && self.imm5 == 0 && self.imm_or_cond_flag == 0 && self.base_r
                == 0 && self.offset_6 == 0 && self.trap_vect_8 == 0 && self.pc_offset_11 == 0,
            Opcode::Add | Opcode::And => self.dr < 8 && self.sr1 < 8 && self.imm_or_cond_flag < 2
                && (if self.imm_or_cond_flag == 1 {
                self.imm5 < 32 && self.sr2 == 0
            } else {
                self.sr2 < 8 && self.imm5 == 0
            }) && self.nzp == 0 && self.base_r == 0 && self.offset_6 == 0 && self.trap_vect_8 == 0
                && self.pc_offset_9 == 0 && self.pc_offset_11 == 0,
            Opcode::Ld | Opcode::Ldi | Opcode::Lea => self.dr < 8 && self.pc_offset_9 < 512
                && self.sr1 == 0 && self.sr2 == 0 && self.imm5 == 0 && self.imm_or_cond_flag == 0
                && self.nzp == 0 && self.base_r == 0 && self.offset_6 == 0 && self.trap_vect_8 == 0
                && self.pc_offset_11 == 0,
            Opcode::St | Opcode::Sti => self.sr1 < 8 && self.pc_offset_9 < 512 && self.dr == 0
                && self.sr2 == 0 && self.imm5 == 0 && self.imm_or_cond_flag == 0 && self.nzp == 0
                && self.base_r == 0 && self.offset_6 == 0 && self.trap_vect_8 == 0
                && self.pc_offset_11 == 0,
            Opcode::Jsr => self.imm_or_cond_flag < 2 && (if self.imm_or_cond_flag == 1 {
                self.pc_offset_11 < 2048 && self.base_r == 0
            } else {
                self.base_r < 8 && self.pc_offset_11 == 0
            }) && self.dr == 0 && self.sr1 == 0 && self.sr2 == 0 && self.imm5 == 0 && self.nzp == 0
                && self.offset_6 == 0 && self.trap_vect_8 == 0 && self.pc_offset_9 == 0,
            Opcode::Ldr => self.dr < 8 && self.base_r < 8 && self.offset_6 < 64 && self.sr1 == 0
                && self.sr2 == 0 && self.imm5 == 0 && self.imm_or_cond_flag == 0 && self.nzp == 0
                && self.trap_vect_8 == 0 && self.pc_offset_9 == 0 && self.pc_offset_11 == 0,
            Opcode::Str => self.sr1 < 8 && self.base_r < 8 && self.offset_6 < 64 && self.dr == 0
                && self.sr2 == 0 && self.imm5 == 0 && self.imm_or_cond_flag == 0 && self.nzp == 0
                && self.trap_vect_8 == 0 && self.pc_offset_9 == 0 && self.pc_offset_11 == 0,
            Opcode::Not => self.dr < 8 && self.sr1 < 8 && self.sr2 == 0 && self.imm5 == 0
                && self.imm_or_cond_flag == 0 && self.nzp == 0 && self.base_r == 0 && self.offset_6
                == 0 && self.trap_vect_8 == 0 && self.pc_offset_9 == 0 && self.pc_offset_11 == 0,
            Opcode::Jmp => self.base_r < 8 && self.dr == 0 && self.sr1 == 0 && self.sr2 == 0
                && self.imm5 == 0 && self.imm_or_cond_flag == 0 && self.nzp == 0 && self.offset_6
                == 0 && self.trap_vect_8 == 0 && self.pc_offset_9 == 0 && self.pc_offset_11 == 0,
            Opcode::Rti | Opcode::Res => self.dr == 0 && self.sr1 == 0 && self.sr2 == 0
                && self.imm5 == 0 && self.imm_or_cond_flag == 0 && self.nzp == 0 && self.base_r
                == 0 && self.offset_6 == 0 && self.trap_vect_8 == 0 && self.pc_offset_9 == 0
                && self.pc_offset_11 == 0,
            Opcode::Trap => self.trap_vect_8 < 256 && self.dr == 0 && self.sr1 == 0 && self.sr2
                == 0 && self.imm5 == 0 && self.imm_or_cond_flag == 0 && self.nzp == 0 && self.base_r
                == 0 && self.offset_6 == 0 && self.pc_offset_9 == 0 && self.pc_offset_11 == 0,
        }
    }
}

/// The instruction denoted by a word: the opcode from bits 15:12, the
/// remaining fields by the opcode's fixed bit layout. Total — every word
/// decodes, RTI and RES included.
pub open spec fn spec_decode(w: u16) -> Instruction {
    let op = spec_opcode_of(w >> 12);
    match op {
        Opcode::Br => Instruction {
            nzp: (w >> 9) & 0x7,
            pc_offset_9: w & 0x1FF,
            ..Instruction::spec_new(op)
        },
        Opcode::Add | Opcode::And => {
            if (w >> 5) & 1 == 1 {
                Instruction {
                    dr: (w >> 9) & 0x7,
                    sr1: (w >> 6) & 0x7,
                    imm_or_cond_flag: 1,
                    imm5: w & 0x1F,
                    ..Instruction::spec_new(op)
                }
            } else {
                Instruction {
                    dr: (w >> 9) & 0x7,
                    sr1: (w >> 6) & 0x7,
                    imm_or_cond_flag: 0,
                    sr2: w & 0x7,
                    ..Instruction::spec_new(op)
                }
            }
        },
        Opcode::Ld | Opcode::Ldi | Opcode::Lea => Instruction {
            dr: (w >> 9) & 0x7,
            pc_offset_9: w & 0x1FF,
            ..Instruction::spec_new(op)
        },
        Opcode::St | Opcode::Sti => Instruction {
            sr1: (w >> 9) & 0x7,
            pc_offset_9: w & 0x1FF,
            ..Instruction::spec_new(op)
        },
        Opcode::Jsr => {
            if (w >> 11) & 1 == 1 {
                Instruction {
                    imm_or_cond_flag: 1,
                    pc_offset_11: w & 0x7FF,
                    ..Instruction::spec_new(op)
                }
            } else {
                Instruction { base_r: (w >> 6) & 0x7, ..Instruction::spec_new(op) }
            }
        },
        Opcode::Ldr => Instruction {
            dr: (w >> 9) & 0x7,
            base_r: (w >> 6) & 0x7,
            offset_6: w & 0x3F,
            ..Instruction::spec_new(op)
        },
        Opcode::Str => Instruction {
            sr1: (w >> 9) & 0x7,
            base_r: (w >> 6) & 0x7,
            offset_6: w & 0x3F,
            ..Instruction::spec_new(op)
        },
        Opcode::Not => Instruction {
            dr: (w >> 9) & 0x7,
            sr1: (w >> 6) & 0x7,
            ..Instruction::spec_new(op)
        },
        Opcode::Jmp => Instruction { base_r: (w >> 6) & 0x7, ..Instruction::spec_new(op) },
        Opcode::Rti | Opcode::Res => Instruction::spec_new(op),
        Opcode::Trap => Instruction { trap_vect_8: w & 0xFF, ..Instruction::spec_new(op) },
    }
}

/// Every extracted field sits below its bit width.
proof fn lemma_field_bounds(w: u16)
    by (bit_vector)
    ensures
        w >> 12 < 16,
        (w >> 9) & 0x7 < 8,
        (w >> 6) & 0x7 < 8,
        w & 0x7 < 8,
        (w >> 5) & 1 < 2,
        (w >> 11) & 1 < 2,
        w & 0x1F < 32,
        w & 0x3F < 64,
        w & 0xFF < 256,
        w & 0x1FF < 512,
        w & 0x7FF < 2048,
{
}

/// Decodes a raw word into its structured instruction. Never fails: every
/// 4-bit tag names an opcode, and the fields follow the opcode's layout.
pub fn decode_instruction(instruction: u16) -> (r: Instruction)
    ensures
        r == spec_decode(instruction),
        r.wf(),
{
    proof {
        lemma_field_bounds(instruction);
    }
    let opcode = Opcode::from_bits(instruction >> 12);
    let mut res = Instruction::new(opcode);
    match opcode {
        Opcode::Br => {
            res.nzp = (instruction >> 9) & 0x7;
            res.pc_offset_9 = instruction & 0x1FF;
            res
        },
        Opcode::Add | Opcode::And => {
            res.dr = (instruction >> 9) & 0x7;
            res.sr1 = (instruction >> 6) & 0x7;
            if (instruction >> 5) & 1 == 1 {
                res.imm_or_cond_flag = 1;
                res.imm5 = instruction & 0x1F;
                res
            } else {
                res.sr2 = instruction & 0x7;
                res
            }
        },
        Opcode::Ld | Opcode::Ldi | Opcode::Lea => {
            res.dr = (instruction >> 9) & 0x7;
            res.pc_offset_9 = instruction & 0x1FF;
            res
        },
        Opcode::St | Opcode::Sti => {
            res.sr1 = (instruction >> 9) & 0x7;
            res.pc_offset_9 = instruction & 0x1FF;
            res
        },
        Opcode::Jsr => {
            if (instruction >> 11) & 1 == 1 {
                res.imm_or_cond_flag = 1;
                res.pc_offset_11 = instruction & 0x7FF;
                res
            } else {
                res.base_r = (instruction >> 6) & 0x7;
                res
            }
        },
        Opcode::Ldr => {
            res.dr = (instruction >> 9) & 0x7;
            res.base_r = (instruction >> 6) & 0x7;
            res.offset_6 = instruction & 0x3F;
            res
        },
        Opcode::Str => {
            res.sr1 = (instruction >> 9) & 0x7;
            res.base_r = (instruction >> 6) & 0x7;
            res.offset_6 = instruction & 0x3F;
            res
        },
        Opcode::Not => {
            res.dr = (instruction >> 9) & 0x7;
            res.sr1 = (instruction >> 6) & 0x7;
            res
        },
        Opcode::Jmp => {
            res.base_r = (instruction >> 6) & 0x7;
            res
        },
        Opcode::Rti | Opcode::Res => res,
        Opcode::Trap => {
            res.trap_vect_8 = instruction & 0xFF;
            res
        },
    }
}

/// The word encoding an instruction, by the opcode's fixed bit layout.
/// Meaningful only when the opcode is not RTI or RES.
pub open spec fn spec_encode(i: Instruction) -> u16 {
    let tag = spec_opcode_bits(i.opcode) << 12;
    match i.opcode {
        Opcode::Br => tag | (i.nzp << 9) | i.pc_offset_9,
        Opcode::Add | Opcode::And => {
            if i.imm_or_cond_flag == 1 {
                tag | (i.dr << 9) | (i.sr1 << 6) | 0x20 | i.imm5
            } else {
                tag | (i.dr << 9) | (i.sr1 << 6) | i.sr2
            }
        },
        Opcode::Ld | Opcode::Ldi | Opcode::Lea => tag | (i.dr << 9) | i.pc_offset_9,
        Opcode::St | Opcode::Sti => tag | (i.sr1 << 9) | i.pc_offset_9,
        Opcode::Jsr => {
            if i.imm_or_cond_flag == 1 {
                tag | 0x800 | i.pc_offset_11
            } else {
                tag | (i.base_r << 6)
            }
        },
        Opcode::Ldr => tag | (i.dr << 9) | (i.base_r << 6) | i.offset_6,
        Opcode::Str => tag | (i.sr1 << 9) | (i.base_r << 6) | i.offset_6,
        Opcode::Not => tag | (i.dr << 9) | (i.sr1 << 6) | 0x1F,
        Opcode::Jmp => tag | (i.base_r << 6),
        Opcode::Rti | Opcode::Res => tag,
        Opcode::Trap => tag | i.trap_vect_8,
    }
}

impl Instruction {
    /// Reconstructs the raw word from the structured fields — the inverse of
    /// decoding. RTI and RES have no defined operand layout and are refused.
    pub fn encode(&self) -> (r: Result<u16, VmError>)
        ensures
            self.opcode is Rti || self.opcode is Res ==> r == Err::<u16, VmError>(
                VmError::IllegalOpcode(self.opcode),
            ),
            !(self.opcode is Rti) && !(self.opcode is Res) ==> r == Ok::<u16, VmError>(
                spec_encode(*self),
            ),
    {
        let tag = self.opcode.bits() << 12;
        match self.opcode {
            Opcode::Br => Ok(tag | (self.nzp << 9) | self.pc_offset_9),
            Opcode::Add | Opcode::And => {
                if self.imm_or_cond_flag == 1 {
                    Ok(tag | (self.dr << 9) | (self.sr1 << 6) | 0x20 | self.imm5)
                } else {
                    Ok(tag | (self.dr << 9) | (self.sr1 << 6) | self.sr2)
                }
            },
            Opcode::Ld | Opcode::Ldi | Opcode::Lea => Ok(tag | (self.dr << 9) | self.pc_offset_9),
            Opcode::St | Opcode::Sti => Ok(tag | (self.sr1 << 9) | self.pc_offset_9),
            Opcode::Jsr => {
                if self.imm_or_cond_flag == 1 {
                    Ok(tag | 0x800 | self.pc_offset_11)
                } else {
                    Ok(tag | (self.base_r << 6))
                }
            },
            Opcode::Ldr => Ok(tag | (self.dr << 9) | (self.base_r << 6) | self.offset_6),
            Opcode::Str => Ok(tag | (self.sr1 << 9) | (self.base_r << 6) | self.offset_6),
            Opcode::Not => Ok(tag | (self.dr << 9) | (self.sr1 << 6) | 0x1F),
            Opcode::Jmp => Ok(tag | (self.base_r << 6)),
            Opcode::Rti | Opcode::Res => Err(VmError::IllegalOpcode(self.opcode)),
            Opcode::Trap => Ok(tag | self.trap_vect_8),
        }
    }
}

/// A word is canonical when the bits its opcode leaves unused are zero and
/// its fixed bits (the all-ones low field of NOT) hold their fixed value.
/// Encoding reproduces exactly the canonical words, since decoding discards
/// unused bits.
pub open spec fn spec_canonical(w: u16) -> bool {
    match spec_opcode_of(w >> 12) {
        Opcode::Br | Opcode::Ld | Opcode::Ldi | Opcode::Lea | Opcode::St | Opcode::Sti
            | Opcode::Ldr | Opcode::Str => true,
        Opcode::Add | Opcode::And => (w >> 5) & 1 == 1 || w & 0x18 == 0,
        Opcode::Jsr => (w >> 11) & 1 == 1 || w & 0x63F == 0,
        Opcode::Not => w & 0x3F == 0x1F,
        Opcode::Jmp => w & 0xE3F == 0,
        Opcode::Rti | Opcode::Res => w & 0xFFF == 0,
        Opcode::Trap => w & 0xF00 == 0,
    }
}

/// The bit-level reassembly facts behind the round trip, one per layout.
proof fn lemma_reassemble(w: u16)
    by (bit_vector)
    ensures
        w >> 12 == 0 ==> (0u16 << 12) | (((w >> 9) & 0x7) << 9) | (w & 0x1FF) == w,
        w >> 12 == 1 && (w >> 5) & 1 == 1 ==> (1u16 << 12) | (((w >> 9) & 0x7) << 9) | (((w >> 6)
            & 0x7) << 6) | 0x20 | (w & 0x1F) == w,
        w >> 12 == 1 && (w >> 5) & 1 != 1 && w & 0x18 == 0 ==> (1u16 << 12) | (((w >> 9) & 0x7)
            << 9) | (((w >> 6) & 0x7) << 6) | (w & 0x7) == w,
        w >> 12 == 2 ==> (2u16 << 12) | (((w >> 9) & 0x7) << 9) | (w & 0x1FF) == w,
        w >> 12 == 3 ==> (3u16 << 12) | (((w >> 9) & 0x7) << 9) | (w & 0x1FF) == w,
        w >> 12 == 4 && (w >> 11) & 1 == 1 ==> (4u16 << 12) | 0x800 | (w & 0x7FF) == w,
        w >> 12 == 4 && (w >> 11) & 1 != 1 && w & 0x63F == 0 ==> (4u16 << 12) | (((w >> 6) & 0x7)
            << 6) == w,
        w >> 12 == 5 && (w >> 5) & 1 == 1 ==> (5u16 << 12) | (((w >> 9) & 0x7) << 9) | (((w >> 6)
            & 0x7) << 6) | 0x20 | (w & 0x1F) == w,
        w >> 12 == 5 && (w >> 5) & 1 != 1 && w & 0x18 == 0 ==> (5u16 << 12) | (((w >> 9) & 0x7)
            << 9) | (((w >> 6) & 0x7) << 6) | (w & 0x7) == w,
        w >> 12 == 6 ==> (6u16 << 12) | (((w >> 9) & 0x7) << 9) | (((w >> 6) & 0x7) << 6) | (w
            & 0x3F) == w,
        w >> 12 == 7 ==> (7u16 << 12) | (((w >> 9) & 0x7) << 9) | (((w >> 6) & 0x7) << 6) | (w
            & 0x3F) == w,
        w >> 12 == 9 && w & 0x3F == 0x1F ==> (9u16 << 12) | (((w >> 9) & 0x7) << 9) | (((w >> 6)
            & 0x7) << 6) | 0x1F == w,
        w >> 12 == 10 ==> (10u16 << 12) | (((w >> 9) & 0x7) << 9) | (w & 0x1FF) == w,
        w >> 12 == 11 ==> (11u16 << 12) | (((w >> 9) & 0x7) << 9) | (w & 0x1FF) == w,
        w >> 12 == 12 && w & 0xE3F == 0 ==> (12u16 << 12) | (((w >> 6) & 0x7) << 6) == w,
        w >> 12 == 14 ==> (14u16 << 12) | (((w >> 9) & 0x7) << 9) | (w & 0x1FF) == w,
        w >> 12 == 15 && w & 0xF00 == 0 ==> (15u16 << 12) | (w & 0xFF) == w,
{
}

/// Round trip of the codec: for every canonical word whose opcode is not RTI
/// or RES, decoding and then encoding gives the word back.
pub proof fn lemma_encode_decode_round_trip(w: u16)
    requires
        spec_canonical(w),
        !(spec_opcode_of(w >> 12) is Rti),
        !(spec_opcode_of(w >> 12) is Res),
    ensures
        spec_encode(spec_decode(w)) == w,
{
    lemma_field_bounds(w);
    lemma_reassemble(w);
}

} // verus!
