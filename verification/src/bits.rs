//! Bit-level facts shared by the status-register models.
//!
//! A packed status byte is the sum of single-bit fields at fixed positions;
//! reading it back tests the same positions with a mask. The lemma below
//! states, over 0/1 indicator values, that packing and testing are inverse
//! to each other.

use vstd::prelude::*;

verus! {

/// Packing eight 0/1 indicators at bit positions 0..7 and then masking any
/// single position recovers that indicator: bits at different positions do
/// not interfere.
pub proof fn lemma_pack_bits(c: u8, z: u8, i: u8, d: u8, b4: u8, b5: u8, v: u8, n: u8)
    by (bit_vector)
    requires
        c <= 1,
        z <= 1,
        i <= 1,
        d <= 1,
        b4 <= 1,
        b5 <= 1,
        v <= 1,
        n <= 1,
    ensures
        ({
            let s = (c + z * 2 + i * 4 + d * 8 + b4 * 16 + b5 * 32 + v * 64 + n * 128) as u8;
            &&& ((s & 0x01) != 0) == (c == 1)
            &&& ((s & 0x02) != 0) == (z == 1)
            &&& ((s & 0x04) != 0) == (i == 1)
            &&& ((s & 0x08) != 0) == (d == 1)
            &&& ((s & 0x10) != 0) == (b4 == 1)
            &&& ((s & 0x20) != 0) == (b5 == 1)
            &&& ((s & 0x40) != 0) == (v == 1)
            &&& ((s & 0x80) != 0) == (n == 1)
        }),
{
}

} // verus!
