//! The laws of the filter, proved once and for all over the mathematical
//! model: bit sequences, element byte sequences and the probe positions
//! of `crate::hashing`.
//!
//! Each law is stated over the same spec functions that the contracts of
//! `BloomFilter`'s methods use, so it applies to every filter those
//! contracts describe: `with_probes` is the effect of `add`,
//! `all_probes_set` the answer of `contains`, `or_bits` and `and_bits`
//! the effects of `union` and `intersect`, and `all_unset` the state
//! after `clear` and the answer of `is_empty`.

use vstd::prelude::*;

use crate::bits::{all_unset, and_bits, or_bits, packed_bit, word_at};
use crate::hashing::{
    all_probes_set, lemma_probe_in_range, probe_hits, probe_index, with_probes,
};

verus! {

/// The bit array after inserting every element of `elems` in order,
/// starting from `bits`.
pub open spec fn with_all_elements(bits: Seq<bool>, elems: Seq<Seq<u8>>, k: nat) -> Seq<bool>
    decreases elems.len(),
{
    if elems.len() == 0 {
        bits
    } else {
        with_all_elements(with_probes(bits, elems[0], k), elems.drop_first(), k)
    }
}

/// Inserting an element never clears a bit.
pub proof fn lemma_with_probes_monotone(bits: Seq<bool>, e: Seq<u8>, k: nat)
    ensures
        forall|j: int| 0 <= j < bits.len() ==> (bits[j] ==> with_probes(bits, e, k)[j]),
{
}

/// A membership test that succeeds on one bit array also succeeds on any
/// equal-length array with at least the same bits set.
pub proof fn lemma_contains_monotone(lesser: Seq<bool>, greater: Seq<bool>, e: Seq<u8>, k: nat)
    requires
        lesser.len() == greater.len(),
        lesser.len() >= 1,
        forall|j: int| 0 <= j < lesser.len() ==> (lesser[j] ==> greater[j]),
        all_probes_set(lesser, e, k),
    ensures
        all_probes_set(greater, e, k),
{
    let m = lesser.len();
    assert forall|i: nat| i < k implies greater[#[trigger] probe_index(e, m, i) as int] by {
        lemma_probe_in_range(e, m, i);
        assert(lesser[probe_index(e, m, i) as int]);
    }
}

/// No false negatives, single insertion: immediately after an element is
/// inserted, every one of its probe bits is set, so the membership test
/// answers true.
pub proof fn lemma_no_false_negative(bits: Seq<bool>, e: Seq<u8>, k: nat)
    requires
        bits.len() >= 1,
    ensures
        all_probes_set(with_probes(bits, e, k), e, k),
{
    let m = bits.len();
    assert forall|i: nat| i < k implies with_probes(bits, e, k)[#[trigger] probe_index(
        e,
        m,
        i,
    ) as int] by {
        lemma_probe_in_range(e, m, i);
        assert(probe_hits(e, m, k, probe_index(e, m, i) as int));
    }
}

/// Inserting a sequence of elements keeps the length of the bit array.
pub proof fn lemma_with_all_elements_len(bits: Seq<bool>, elems: Seq<Seq<u8>>, k: nat)
    ensures
        with_all_elements(bits, elems, k).len() == bits.len(),
    decreases elems.len(),
{
    if elems.len() > 0 {
        lemma_with_all_elements_len(with_probes(bits, elems[0], k), elems.drop_first(), k);
    }
}

/// Inserting a sequence of elements never clears a bit.
pub proof fn lemma_with_all_elements_monotone(bits: Seq<bool>, elems: Seq<Seq<u8>>, k: nat)
    ensures
        forall|j: int|
            0 <= j < bits.len() ==> (bits[j] ==> with_all_elements(bits, elems, k)[j]),
    decreases elems.len(),
{
    if elems.len() > 0 {
        lemma_with_probes_monotone(bits, elems[0], k);
        lemma_with_all_elements_monotone(with_probes(bits, elems[0], k), elems.drop_first(), k);
    }
}

/// No false negatives: after inserting every element of `elems`, the
/// membership test answers true for each of them.
pub proof fn lemma_no_false_negatives(bits: Seq<bool>, elems: Seq<Seq<u8>>, k: nat, x: Seq<u8>)
    requires
        bits.len() >= 1,
        elems.contains(x),
    ensures
        all_probes_set(with_all_elements(bits, elems, k), x, k),
    decreases elems.len(),
{
    let inserted = with_probes(bits, elems[0], k);
    lemma_with_all_elements_len(inserted, elems.drop_first(), k);
    if elems[0] == x {
        lemma_no_false_negative(bits, x, k);
        lemma_with_all_elements_monotone(inserted, elems.drop_first(), k);
        lemma_contains_monotone(
            inserted,
            with_all_elements(inserted, elems.drop_first(), k),
            x,
            k,
        );
    } else {
        let idx = choose|idx: int| 0 <= idx < elems.len() && elems[idx] == x;
        assert(elems.drop_first()[idx - 1] == x);
        assert(elems.drop_first().contains(x));
        lemma_no_false_negatives(inserted, elems.drop_first(), k, x);
    }
}

/// Deterministic hashing: two filters of the same configuration holding
/// equal bits — however and wherever each was built — are changed alike
/// by inserting an element and answer the membership test alike, since
/// the probe positions are a function of the element bytes, the
/// bit-array length and the hash count alone.
pub proof fn lemma_deterministic_hashing(
    bits_a: Seq<bool>,
    bits_b: Seq<bool>,
    e: Seq<u8>,
    k: nat,
)
    requires
        bits_a.len() == bits_b.len(),
        forall|j: int| 0 <= j < bits_a.len() ==> bits_a[j] == bits_b[j],
    ensures
        with_probes(bits_a, e, k) == with_probes(bits_b, e, k),
        all_probes_set(bits_a, e, k) == all_probes_set(bits_b, e, k),
{
    assert(bits_a =~= bits_b);
}

/// Union correctness: an element whose probe bits are all set in either
/// operand has them all set in the union, so no element of either side
/// is lost.
pub proof fn lemma_union_no_loss(a: Seq<bool>, b: Seq<bool>, e: Seq<u8>, k: nat)
    requires
        a.len() == b.len(),
        a.len() >= 1,
        all_probes_set(a, e, k) || all_probes_set(b, e, k),
    ensures
        all_probes_set(or_bits(a, b), e, k),
{
    if all_probes_set(a, e, k) {
        lemma_contains_monotone(a, or_bits(a, b), e, k);
    } else {
        lemma_contains_monotone(b, or_bits(a, b), e, k);
    }
}

/// Intersection monotonicity: the intersection introduces no new
/// positives — an element possibly present after it was possibly present
/// in both operands before.
pub proof fn lemma_intersect_no_new_positives(a: Seq<bool>, b: Seq<bool>, e: Seq<u8>, k: nat)
    requires
        a.len() == b.len(),
        a.len() >= 1,
        all_probes_set(and_bits(a, b), e, k),
    ensures
        all_probes_set(a, e, k),
        all_probes_set(b, e, k),
{
    let m = a.len();
    assert(and_bits(a, b).len() == m);
    assert forall|i: nat|
        i < k implies a[#[trigger] probe_index(e, m, i) as int] && b[probe_index(
        e,
        m,
        i,
    ) as int] by {
        lemma_probe_in_range(e, m, i);
        assert(and_bits(a, b)[probe_index(e, and_bits(a, b).len(), i) as int]);
    }
}

/// Round-trip serialization through bytes: when the bit-array length is
/// a multiple of eight, packing into bytes and unpacking again — the
/// contracts of `get_u8_array` and `from_u8_array` — reproduces the bit
/// array exactly, so the rebuilt filter answers every membership test as
/// the original does.
pub proof fn lemma_byte_round_trip(bits: Seq<bool>, bytes: Seq<u8>, restored: Seq<bool>)
    requires
        bits.len() % 8 == 0,
        bytes.len() == (bits.len() + 7) / 8,
        forall|i: int| 0 <= i < bits.len() ==> bits[i] == #[trigger] packed_bit(bytes, i),
        restored.len() == 8 * bytes.len(),
        forall|i: int| 0 <= i < 8 * bytes.len() ==> restored[i] == #[trigger] packed_bit(bytes, i),
    ensures
        restored == bits,
{
    assert(bits.len() == 8 * bytes.len());
    assert forall|i: int| 0 <= i < bits.len() implies restored[i] == bits[i] by {
        assert(bits[i] == packed_bit(bytes, i));
    }
    assert(restored =~= bits);
}

/// Round-trip serialization through 32-bit words: when the bit-array
/// length is a multiple of 32, packing into words and unpacking again —
/// the contracts of `get_u32_array` and `from_u32_array` — reproduces
/// the bit array exactly, so the rebuilt filter answers every membership
/// test as the original does.
pub proof fn lemma_word_round_trip(bits: Seq<bool>, words: Seq<u32>, restored: Seq<bool>)
    requires
        bits.len() % 32 == 0,
        words.len() == (bits.len() + 31) / 32,
        forall|i: int| 0 <= i < bits.len() ==> bits[i] == #[trigger] word_at(words, i),
        restored.len() == 32 * words.len(),
        forall|i: int| 0 <= i < 32 * words.len() ==> restored[i] == #[trigger] word_at(words, i),
    ensures
        restored == bits,
{
    assert(bits.len() == 32 * words.len());
    assert forall|i: int| 0 <= i < bits.len() implies restored[i] == bits[i] by {
        assert(bits[i] == word_at(words, i));
    }
    assert(restored =~= bits);
}

/// Clear resets: a bit array with no bit set reports every element as
/// definitely absent.
pub proof fn lemma_empty_contains_nothing(bits: Seq<bool>, e: Seq<u8>, k: nat)
    requires
        bits.len() >= 1,
        k >= 1,
        all_unset(bits),
    ensures
        !all_probes_set(bits, e, k),
{
    lemma_probe_in_range(e, bits.len(), 0);
    assert(!bits[probe_index(e, bits.len(), 0) as int]);
}

} // verus!
