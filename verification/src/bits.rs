//! Bit-order correction. The serial peripheral shifts bytes out
//! most-significant-bit first while the accessory bus expects
//! least-significant-bit first, so every byte of every frame is bit-reversed
//! once on the way out and once on the way back in.

use vstd::prelude::*;

verus! {

/// The bit-reversal of a byte: bit 7 swaps with bit 0, bit 6 with bit 1,
/// bit 5 with bit 2 and bit 4 with bit 3.
pub open spec fn rev8(b: u8) -> u8 {
    ((b & 0x01) << 7) | ((b & 0x02) << 5) | ((b & 0x04) << 3) | ((b & 0x08) << 1)
        | ((b & 0x10) >> 1) | ((b & 0x20) >> 3) | ((b & 0x40) >> 5) | ((b & 0x80) >> 7)
}

/// The wire form of a frame: every byte bit-reversed.
pub open spec fn wire(s: Seq<u8>) -> Seq<u8> {
    s.map(|i: int, b: u8| rev8(b))
}

/// Reversing a byte twice gives the byte back.
pub proof fn lemma_rev8_involution()
    ensures
        forall|b: u8| #[trigger] rev8(rev8(b)) == b,
{
    assert forall|b: u8| #[trigger] rev8(rev8(b)) == b by {
        assert(rev8(rev8(b)) == b) by (bit_vector);
    }
}

/// Taking a frame to wire form twice gives the frame back.
pub proof fn lemma_wire_involution(s: Seq<u8>)
    ensures
        wire(wire(s)) == s,
{
    lemma_rev8_involution();
    assert(wire(wire(s)) =~= s);
}

/// Relies on `bit_reverse::ParallelReverse::swap_bits` for `u8`: it returns
/// the argument with its eight bits in the opposite order.
#[verifier::external_body]
fn swap_bits_byte(b: u8) -> (r: u8)
    ensures
        r == rev8(b),
{
    bit_reverse::ParallelReverse::swap_bits(b)
}

/// Replaces every byte of the buffer with its bit-reversed value, in place.
/// Applying this twice restores the buffer (`lemma_wire_involution`).
pub fn flip(bytes: &mut Vec<u8>)
    ensures
        final(bytes)@ == wire(old(bytes)@),
{
    let len = bytes.len();
    let mut i: usize = 0;
    while i < len
        invariant
            len == bytes@.len(),
            0 <= i <= len,
            forall|j: int| 0 <= j < i ==> bytes@[j] == rev8(old(bytes)@[j]),
            forall|j: int| i <= j < len ==> bytes@[j] == old(bytes)@[j],
        decreases len - i,
    {
        let r = swap_bits_byte(bytes[i]);
        bytes.set(i, r);
        i = i + 1;
    }
    assert(bytes@ =~= wire(old(bytes)@));
}

} // verus!
