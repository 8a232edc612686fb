//! The bit array that backs a Bloom filter, held in `bit_vec::BitVec`.
//!
//! The contents of a `BitVec` are named by the spec function `bits_of`,
//! a sequence of booleans; every operation the filter needs is wrapped in
//! a function whose contract states, over that sequence, what the
//! `bit_vec` crate's source shows the operation does.

use vstd::prelude::*;

verus! {

#[verifier::external_type_specification]
#[verifier::external_body]
#[verifier::reject_recursive_types(B)]
pub struct ExBitVec<B>(bit_vec::BitVec<B>);

/// The bits a `BitVec` holds, in index order.
pub uninterp spec fn bits_of(bv: bit_vec::BitVec) -> Seq<bool>;

/// Whether bit `j` (counted from the least significant end) of a 32-bit
/// word is set; the position a `BitVec` stores bit `32*w + j` at inside
/// its word `w`.
pub open spec fn word_bit(w: u32, j: u32) -> bool
    recommends
        j < 32,
{
    (w >> j) & 1u32 == 1u32
}

/// Whether bit `j` (counted from the most significant end) of a byte is
/// set; the position byte-level serialization packs bit `8*b + j` at
/// inside its byte `b`.
pub open spec fn byte_bit(b: u8, j: u8) -> bool
    recommends
        j < 8,
{
    (b >> (7 - j) as u8) & 1u8 == 1u8
}

/// Whether no bit of a sequence is set.
pub open spec fn all_unset(s: Seq<bool>) -> bool {
    forall|j: int| 0 <= j < s.len() ==> !s[j]
}

/// The pointwise or of two equal-length bit sequences.
pub open spec fn or_bits(a: Seq<bool>, b: Seq<bool>) -> Seq<bool>
    recommends
        a.len() == b.len(),
{
    Seq::new(a.len(), |j: int| a[j] || b[j])
}

/// The pointwise and of two equal-length bit sequences.
pub open spec fn and_bits(a: Seq<bool>, b: Seq<bool>) -> Seq<bool>
    recommends
        a.len() == b.len(),
{
    Seq::new(a.len(), |j: int| a[j] && b[j])
}

/// The bit a packed byte array holds at overall position `i`: position
/// `i % 8` from the most significant end of byte `i / 8`.
pub open spec fn packed_bit(bytes: Seq<u8>, i: int) -> bool
    recommends
        0 <= i < 8 * bytes.len(),
{
    byte_bit(bytes[i / 8], (i % 8) as u8)
}

/// The bit a packed word array holds at overall position `i`: position
/// `i % 32` from the least significant end of word `i / 32`.
pub open spec fn word_at(words: Seq<u32>, i: int) -> bool
    recommends
        0 <= i < 32 * words.len(),
{
    word_bit(words[i / 32], (i % 32) as u32)
}

/// Relies on `bit_vec::BitVec::from_elem`: a vector of `nbits` copies of
/// the given bit.
#[verifier::external_body]
pub(crate) fn bv_new(nbits: usize, bit: bool) -> (r: bit_vec::BitVec)
    ensures
        bits_of(r) == Seq::new(nbits as nat, |j: int| bit),
{
    bit_vec::BitVec::from_elem(nbits, bit)
}

/// Relies on `bit_vec::BitVec::len`: the number of bits held.
#[verifier::external_body]
pub(crate) fn bv_len(bv: &bit_vec::BitVec) -> (r: usize)
    ensures
        r == bits_of(*bv).len(),
{
    bv.len()
}

/// Relies on `bit_vec::BitVec::get`: the bit at `i`, or `None` past the end.
#[verifier::external_body]
pub(crate) fn bv_get(bv: &bit_vec::BitVec, i: usize) -> (r: Option<bool>)
    ensures
        i < bits_of(*bv).len() ==> r == Some(bits_of(*bv)[i as int]),
        i >= bits_of(*bv).len() ==> r is None,
{
    bv.get(i)
}

/// Relies on `bit_vec::BitVec::set`: writes the bit at `i`, which must be
/// in range (the call panics otherwise).
#[verifier::external_body]
pub(crate) fn bv_set(bv: &mut bit_vec::BitVec, i: usize, x: bool)
    requires
        i < bits_of(*old(bv)).len(),
    ensures
        bits_of(*final(bv)) == bits_of(*old(bv)).update(i as int, x),
{
    bv.set(i, x)
}

/// Relies on `bit_vec::BitVec::clear`: resets every bit to false, keeping
/// the length.
#[verifier::external_body]
pub(crate) fn bv_clear(bv: &mut bit_vec::BitVec)
    ensures
        bits_of(*final(bv)) == Seq::new(bits_of(*old(bv)).len(), |j: int| false),
{
    bv.clear()
}

/// Relies on `bit_vec::BitVec::none`: true iff no bit is set.
#[verifier::external_body]
pub(crate) fn bv_none(bv: &bit_vec::BitVec) -> (r: bool)
    ensures
        r == all_unset(bits_of(*bv)),
{
    bv.none()
}

/// Relies on `bit_vec::BitVec::or`: the bitwise or of two vectors of equal
/// length, written into the first (the call panics on unequal lengths).
/// The returned change flag is not needed here and is dropped.
#[verifier::external_body]
pub(crate) fn bv_or(bv: &mut bit_vec::BitVec, other: &bit_vec::BitVec)
    requires
        bits_of(*old(bv)).len() == bits_of(*other).len(),
    ensures
        bits_of(*final(bv)) == Seq::new(
            bits_of(*old(bv)).len(),
            |j: int| bits_of(*old(bv))[j] || bits_of(*other)[j],
        ),
{
    bv.or(other);
}

/// Relies on `bit_vec::BitVec::and`: the bitwise and of two vectors of
/// equal length, written into the first (the call panics on unequal
/// lengths). The returned change flag is not needed here and is dropped.
#[verifier::external_body]
pub(crate) fn bv_and(bv: &mut bit_vec::BitVec, other: &bit_vec::BitVec)
    requires
        bits_of(*old(bv)).len() == bits_of(*other).len(),
    ensures
        bits_of(*final(bv)) == Seq::new(
            bits_of(*old(bv)).len(),
            |j: int| bits_of(*old(bv))[j] && bits_of(*other)[j],
        ),
{
    bv.and(other);
}

/// Relies on `Clone for bit_vec::BitVec`: an independent copy with the
/// same bits.
#[verifier::external_body]
pub(crate) fn bv_clone(bv: &bit_vec::BitVec) -> (r: bit_vec::BitVec)
    ensures
        bits_of(r) == bits_of(*bv),
{
    bv.clone()
}

/// Relies on `bit_vec::BitVec::to_bytes`: packs the bits into bytes, the
/// first bit as the most significant bit of the first byte, padding the
/// last byte with false bits.
#[verifier::external_body]
pub(crate) fn bv_to_bytes(bv: &bit_vec::BitVec) -> (r: Vec<u8>)
    ensures
        r@.len() == (bits_of(*bv).len() + 7) / 8,
        forall|i: int|
            0 <= i < bits_of(*bv).len() ==> bits_of(*bv)[i] == #[trigger] packed_bit(r@, i),
        forall|i: int|
            bits_of(*bv).len() <= i < 8 * r@.len() ==> !(#[trigger] packed_bit(r@, i)),
{
    bv.to_bytes()
}

/// Relies on `bit_vec::BitVec::from_bytes`: eight bits per byte, the most
/// significant bit of each byte first. The call panics when the bit count
/// overflows `usize`, so the byte count is bounded here.
#[verifier::external_body]
pub(crate) fn bv_from_bytes(bytes: &[u8]) -> (r: bit_vec::BitVec)
    requires
        8 * bytes@.len() <= usize::MAX,
    ensures
        bits_of(r).len() == 8 * bytes@.len(),
        forall|i: int|
            0 <= i < 8 * bytes@.len() ==> bits_of(r)[i] == #[trigger] packed_bit(bytes@, i),
{
    bit_vec::BitVec::from_bytes(bytes)
}

/// Relies on `bit_vec::BitVec::blocks`: the backing 32-bit words in order,
/// bit `i` of the vector at position `i % 32` from the least significant
/// end of word `i / 32`, the unused high positions of the last word false.
#[verifier::external_body]
pub(crate) fn bv_blocks(bv: &bit_vec::BitVec) -> (r: Vec<u32>)
    ensures
        r@.len() == (bits_of(*bv).len() + 31) / 32,
        forall|i: int|
            0 <= i < bits_of(*bv).len() ==> bits_of(*bv)[i] == #[trigger] word_at(r@, i),
        forall|i: int|
            bits_of(*bv).len() <= i < 32 * r@.len() ==> !(#[trigger] word_at(r@, i)),
{
    bv.blocks().collect()
}

} // verus!
