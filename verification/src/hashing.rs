//! The double-hashing scheme shared by insertion and membership test.
//!
//! Two 128-bit base hash values are taken of the element bytes, with
//! seeds 0 and 32; reduced modulo the bit-array length `m` they give
//! `h1` and `h2`, and the `k` probe positions are
//! `(h1 + i * h2) mod m` for `i = 0 .. k-1` (position 0 being `h1`
//! itself). The scheme is pinned exactly — seeds, modulus order and
//! enumeration of `i` — so that two filters with the same configuration
//! touch the same bits for the same element.

use vstd::prelude::*;

verus! {

/// The 128-bit MurmurHash3 (x64 variant) of a byte sequence under a seed.
pub uninterp spec fn murmur128_of(data: Seq<u8>, seed: u64) -> u128;

/// Relies on `fastmurmur3::murmur3_x64_128`: the result is a pure
/// function of the input bytes and the seed, total for every input.
#[verifier::external_body]
pub(crate) fn murmur128(data: &[u8], seed: u64) -> (r: u128)
    ensures
        r == murmur128_of(data@, seed),
{
    fastmurmur3::murmur3_x64_128(data, seed)
}

/// The first base hash of an element, reduced modulo the bit-array
/// length `m`.
pub open spec fn hash1(e: Seq<u8>, m: nat) -> nat
    recommends
        m >= 1,
{
    murmur128_of(e, 0) as nat % m
}

/// The second base hash of an element, reduced modulo the bit-array
/// length `m`.
pub open spec fn hash2(e: Seq<u8>, m: nat) -> nat
    recommends
        m >= 1,
{
    murmur128_of(e, 32) as nat % m
}

/// The `i`-th probe position of element `e` in a bit array of length `m`.
pub open spec fn probe_index(e: Seq<u8>, m: nat, i: nat) -> nat
    recommends
        m >= 1,
{
    (hash1(e, m) + i * hash2(e, m)) % m
}

/// Whether some probe with index in `[lo, hi)` of element `e` lands on
/// bit `j`.
pub open spec fn probe_hits_range(e: Seq<u8>, m: nat, lo: nat, hi: nat, j: int) -> bool {
    exists|i: nat| lo <= i < hi && #[trigger] probe_index(e, m, i) == j
}

/// Whether some probe among the first `k` of element `e` lands on bit `j`.
pub open spec fn probe_hits(e: Seq<u8>, m: nat, k: nat, j: int) -> bool {
    probe_hits_range(e, m, 0, k, j)
}

/// Whether every probe with index in `[lo, hi)` of element `e` lands on a
/// set bit of `bits`.
pub open spec fn probes_set_range(bits: Seq<bool>, e: Seq<u8>, lo: nat, hi: nat) -> bool {
    forall|i: nat| lo <= i < hi ==> bits[#[trigger] probe_index(e, bits.len(), i) as int]
}

/// The bit array after inserting element `e` with `k` probes: every probe
/// position set, every other bit unchanged.
pub open spec fn with_probes(bits: Seq<bool>, e: Seq<u8>, k: nat) -> Seq<bool> {
    Seq::new(bits.len(), |j: int| bits[j] || probe_hits(e, bits.len(), k, j))
}

/// Whether all of the first `k` probe positions of element `e` are set:
/// the membership test, true iff `e` is possibly present.
pub open spec fn all_probes_set(bits: Seq<bool>, e: Seq<u8>, k: nat) -> bool {
    probes_set_range(bits, e, 0, k)
}

/// Every probe position lies inside the bit array.
pub proof fn lemma_probe_in_range(e: Seq<u8>, m: nat, i: nat)
    requires
        m >= 1,
    ensures
        probe_index(e, m, i) < m,
{
}

/// The probe of index 0 is the first base hash itself.
pub proof fn lemma_probe_zero(e: Seq<u8>, m: nat)
    requires
        m >= 1,
    ensures
        probe_index(e, m, 0) == hash1(e, m),
{
    vstd::arithmetic::div_mod::lemma_small_mod(hash1(e, m), m);
}

/// Widening a probe range by one index adds exactly the probe of that
/// index to the positions it can land on.
pub proof fn lemma_probe_hits_range_extend(e: Seq<u8>, m: nat, lo: nat, i: nat, j: int)
    requires
        lo <= i,
    ensures
        probe_hits_range(e, m, lo, i + 1, j) == (probe_hits_range(e, m, lo, i, j)
            || probe_index(e, m, i) == j),
{
    if probe_hits_range(e, m, lo, i + 1, j) {
        let t = choose|t: nat| lo <= t < i + 1 && #[trigger] probe_index(e, m, t) == j;
        if t < i {
            assert(probe_hits_range(e, m, lo, i, j));
        } else {
            assert(probe_index(e, m, i) == j);
        }
    }
    if probe_hits_range(e, m, lo, i, j) {
        let t = choose|t: nat| lo <= t < i && #[trigger] probe_index(e, m, t) == j;
        assert(lo <= t < i + 1 && probe_index(e, m, t) == j);
    }
    if probe_index(e, m, i) == j {
        assert(lo <= i < i + 1 && probe_index(e, m, i) == j);
    }
}

/// A probe range lands on `j` iff its first probe does or the rest of
/// the range does.
pub proof fn lemma_probe_hits_range_split_first(e: Seq<u8>, m: nat, lo: nat, hi: nat, j: int)
    requires
        lo < hi,
    ensures
        probe_hits_range(e, m, lo, hi, j) == (probe_index(e, m, lo) == j || probe_hits_range(
            e,
            m,
            lo + 1,
            hi,
            j,
        )),
{
    if probe_hits_range(e, m, lo, hi, j) {
        let t = choose|t: nat| lo <= t < hi && #[trigger] probe_index(e, m, t) == j;
        if t != lo {
            assert(lo + 1 <= t < hi && probe_index(e, m, t) == j);
        }
    }
    if probe_hits_range(e, m, lo + 1, hi, j) {
        let t = choose|t: nat| lo + 1 <= t < hi && #[trigger] probe_index(e, m, t) == j;
        assert(lo <= t < hi && probe_index(e, m, t) == j);
    }
    if probe_index(e, m, lo) == j {
        assert(lo <= lo < hi && probe_index(e, m, lo) == j);
    }
}

/// Widening a checked probe range by one index adds exactly the check of
/// that index's probe.
pub proof fn lemma_probes_set_range_extend(bits: Seq<bool>, e: Seq<u8>, lo: nat, i: nat)
    requires
        lo <= i,
    ensures
        probes_set_range(bits, e, lo, i + 1) == (probes_set_range(bits, e, lo, i)
            && bits[probe_index(e, bits.len(), i) as int]),
{
    if probes_set_range(bits, e, lo, i) && bits[probe_index(e, bits.len(), i) as int] {
        assert forall|t: nat| lo <= t < i + 1 implies bits[#[trigger] probe_index(
            e,
            bits.len(),
            t,
        ) as int] by {
            if t < i {
                assert(probes_set_range(bits, e, lo, i));
            }
        }
    }
}

/// A checked probe range stays checked when restricted to a subrange.
pub proof fn lemma_probes_set_range_restrict(
    bits: Seq<bool>,
    e: Seq<u8>,
    lo: nat,
    hi: nat,
    lo2: nat,
    hi2: nat,
)
    requires
        lo <= lo2,
        hi2 <= hi,
        probes_set_range(bits, e, lo, hi),
    ensures
        probes_set_range(bits, e, lo2, hi2),
{
}

} // verus!
