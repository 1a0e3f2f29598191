//! Bit-level helpers shared by the chip models: single-bit probes and
//! the few range facts about bitwise operators that the proofs need.

use vstd::prelude::*;

verus! {

/// Whether bit `n` of the 16-bit value `v` is set.
pub open spec fn bit16(v: u16, n: u16) -> bool {
    (v >> n) & 1 == 1
}

/// ORing and ANDing two nibbles yields a nibble.
pub proof fn lemma_nib_or_and(a: u8, b: u8)
    by (bit_vector)
    requires
        a < 16,
        b < 16,
    ensures
        a | b < 16,
        a & b < 16,
{
}

/// ORing two 11-bit values yields an 11-bit value.
pub proof fn lemma_u16_or11(a: u16, b: u16)
    by (bit_vector)
    requires
        a < 2048,
        b < 2048,
    ensures
        a | b < 2048,
{
}

/// ANDing with an 11-bit value yields an 11-bit value.
pub proof fn lemma_u16_and11(a: u16, b: u16)
    by (bit_vector)
    requires
        b < 2048,
    ensures
        a & b < 2048,
{
}

/// Masking to 11 bits yields an 11-bit value.
pub proof fn lemma_u32_mask11(v: u32)
    by (bit_vector)
    ensures
        v & 0x7ff < 2048,
{
}

/// Masking to 4 bits yields a nibble.
pub proof fn lemma_u32_mask4(v: u32)
    by (bit_vector)
    ensures
        v & 0xf < 16,
{
}

/// OR two nibbles.
pub(crate) fn or_nib(a: u8, b: u8) -> (r: u8)
    requires
        a < 16,
        b < 16,
    ensures
        r == a | b,
        r < 16,
{
    proof {
        lemma_nib_or_and(a, b);
    }
    a | b
}

} // verus!
