//! Single bits of a byte buffer, least significant bit of each byte first.
use bitvec::order::Lsb0;
use bitvec::view::BitView;
use vstd::prelude::*;

verus! {

/// The bit at position `p` of `bytes`, counting from the least significant
/// bit of the first byte.
pub open spec fn bit_at(bytes: Seq<u8>, p: int) -> bool {
    (bytes[p / 8] >> ((p % 8) as u8)) & 1u8 == 1u8
}

/// Relies on bitvec's `BitSlice` indexing in `Lsb0` order: bit `p` is bit
/// `p % 8` of byte `p / 8`.
#[verifier::external_body]
pub(crate) fn read_bit(bytes: &[u8], p: usize) -> (r: bool)
    requires
        p < bytes@.len() * 8,
    ensures
        r == bit_at(bytes@, p as int),
{
    bytes.view_bits::<Lsb0>()[p]
}

/// Sets bit `p` of `bytes` to one: ORs `1 << (p % 8)` into byte `p / 8`.
pub(crate) fn set_bit(bytes: &mut Vec<u8>, p: usize)
    requires
        p < old(bytes)@.len() * 8,
    ensures
        final(bytes)@ == old(bytes)@.update(
            p as int / 8,
            old(bytes)@[p as int / 8] | (1u8 << ((p % 8) as u8)),
        ),
{
    let i = p / 8;
    let b = bytes[i];
    bytes.set(i, b | (1u8 << ((p % 8) as u8)));
}

/// Setting one bit of a byte changes that bit only.
pub proof fn lemma_or_bit(b: u8, j: u8, i: u8)
    requires
        j < 8,
        i < 8,
    ensures
        ((b | (1u8 << j)) >> i) & 1u8 == 1u8 <==> (i == j || (b >> i) & 1u8 == 1u8),
{
    assert(((b | (1u8 << j)) >> i) & 1u8 == 1u8 <==> (i == j || (b >> i) & 1u8 == 1u8))
        by (bit_vector)
        requires
            j < 8,
            i < 8,
    ;
}

/// Setting bit `p` of a buffer makes that bit one and keeps every other bit.
pub proof fn lemma_set_bit(old_bytes: Seq<u8>, new_bytes: Seq<u8>, p: int, q: int)
    requires
        0 <= p < old_bytes.len() * 8,
        0 <= q < old_bytes.len() * 8,
        new_bytes == old_bytes.update(p / 8, old_bytes[p / 8] | (1u8 << ((p % 8) as u8))),
    ensures
        bit_at(new_bytes, q) == (q == p || bit_at(old_bytes, q)),
{
    if q / 8 == p / 8 {
        lemma_or_bit(old_bytes[p / 8], (p % 8) as u8, (q % 8) as u8);
    }
}

/// A byte of zero has no bit set.
pub proof fn lemma_zero_bits(i: u8)
    requires
        i < 8,
    ensures
        (0u8 >> i) & 1u8 == 0u8,
{
    assert((0u8 >> i) & 1u8 == 0u8) by (bit_vector);
}

} // verus!
