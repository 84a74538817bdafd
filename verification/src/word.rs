//! Word-level arithmetic: wrapping 16-bit addition and two's-complement sign
//! extension. All program-counter and address arithmetic in the machine is
//! modulo 65536 by design; overflow is defined behaviour, never an error.

use vstd::prelude::*;

verus! {

/// Addition of two words, wrapping modulo 65536.
pub open spec fn spec_wrap_add(a: u16, b: u16) -> u16 {
    if a + b > 0xFFFF {
        (a + b - 0x10000) as u16
    } else {
        (a + b) as u16
    }
}

/// Sign extension of a `bit_count`-wide two's-complement field to a full
/// word: when the field's top bit is set, all higher bits become ones.
pub open spec fn spec_sign_extend(value: u16, bit_count: usize) -> u16
    recommends
        1 <= bit_count <= 15,
{
    if (value >> (bit_count - 1)) & 1 == 1 {
        (0xFFFFu16 << bit_count) | value
    } else {
        value
    }
}

/// Widens a signed field of `bit_count` bits to the full word width,
/// preserving its sign.
pub fn sign_extend(value: u16, bit_count: usize) -> (r: u16)
    requires
        1 <= bit_count <= 15,
    ensures
        r == spec_sign_extend(value, bit_count),
{
    if (value >> (bit_count - 1)) & 1 == 1 {
        (0xFFFFu16 << bit_count) | value
    } else {
        value
    }
}

/// Both bytes of a word fit in eight bits.
pub proof fn lemma_byte_bounds(w: u16)
    by (bit_vector)
    ensures
        w & 0xFF < 256,
        w >> 8 < 256,
{
}

/// The condition-flag word for a value just written to a register: negative
/// when its high bit is set, zero when it is zero, positive otherwise.
/// Exactly one flag is ever set.
pub open spec fn spec_flag_of(v: u16) -> u16 {
    if v == 0 {
        2
    } else if v >= 0x8000 {
        4
    } else {
        1
    }
}

/// The condition flags are mutually exclusive: after any flag update the
/// flag register holds exactly one of the negative, zero and positive
/// flags.
pub proof fn lemma_flag_exclusive(v: u16)
    ensures
        spec_flag_of(v) == 1 || spec_flag_of(v) == 2 || spec_flag_of(v) == 4,
        v == 0 <==> spec_flag_of(v) == 2,
        v >= 0x8000 <==> spec_flag_of(v) == 4,
        0 < v < 0x8000 <==> spec_flag_of(v) == 1,
{
}

} // verus!
