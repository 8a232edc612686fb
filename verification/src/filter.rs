//! The filter engine: a bit array of length `config.size` together with
//! its configuration, supporting insertion, membership test, set algebra
//! and byte- and word-level serialization.

use vstd::prelude::*;

use crate::bits::{
    all_unset, and_bits, bits_of, bv_and, bv_clear, bv_clone, bv_from_bytes, bv_get, bv_len,
    bv_new, bv_none, bv_or, bv_set, bv_to_bytes, bv_blocks, or_bits, packed_bit, word_at,
};
use crate::builder::FilterBuilder;
use crate::hashing::{
    all_probes_set, hash1, hash2, lemma_probe_zero, lemma_probe_hits_range_extend,
    lemma_probe_hits_range_split_first,
    lemma_probes_set_range_extend, lemma_probes_set_range_restrict, murmur128, probe_hits,
    probe_hits_range, probe_index, probes_set_range, with_probes,
};

verus! {

/// Reads a bit known to be in range.
fn get_bit(bv: &bit_vec::BitVec, i: usize) -> (r: bool)
    requires
        i < bits_of(*bv).len(),
    ensures
        r == bits_of(*bv)[i as int],
{
    match bv_get(bv, i) {
        Some(b) => b,
        None => false,
    }
}

/// A Bloom filter: a fixed-length bit array and the configuration that
/// fixes its length and its number of hash probes.
pub struct BloomFilter {
    pub(crate) config: FilterBuilder,
    pub(crate) bit_set: bit_vec::BitVec,
}

impl BloomFilter {
    /// The bits of the filter, in index order.
    pub closed spec fn bits(&self) -> Seq<bool> {
        bits_of(self.bit_set)
    }

    /// The configuration the filter was built with.
    pub closed spec fn spec_config(&self) -> FilterBuilder {
        self.config
    }

    /// The bit-array length, in bits.
    pub open spec fn spec_size(&self) -> nat {
        self.spec_config().size as nat
    }

    /// The number of hash probes per element.
    pub open spec fn spec_hashes(&self) -> nat {
        self.spec_config().hashes as nat
    }

    /// Well-formedness: the configuration is valid and the bit array's
    /// length equals `config.size`, so the hash index space and the
    /// stored bits never drift apart.
    pub open spec fn wf(&self) -> bool {
        &&& self.spec_config().valid()
        &&& self.bits().len() == self.spec_size()
    }

    /// Builds a zero-initialized filter of `config.size` bits.
    pub fn new(config: FilterBuilder) -> (r: BloomFilter)
        requires
            config.valid(),
        ensures
            r.wf(),
            r.spec_config() == config,
            r.bits() == Seq::new(config.size as nat, |j: int| false),
    {
        let mut config = config;
        config.complete();
        let bit_set = bv_new(config.size as usize, false);
        BloomFilter { config, bit_set }
    }

    /// Rebuilds a filter from a prior bit array and the hash count it was
    /// built with; the array's length becomes the authoritative size.
    pub fn from_bit_vec(bit_vec: &bit_vec::BitVec, hashes: u32) -> (r: BloomFilter)
        requires
            bits_of(*bit_vec).len() >= 1,
            hashes >= 1,
        ensures
            r.wf(),
            r.spec_size() == bits_of(*bit_vec).len(),
            r.spec_hashes() == hashes,
            r.bits() == bits_of(*bit_vec),
    {
        let len = bv_len(bit_vec);
        let mut config = FilterBuilder::from_size_and_hashes(len as u64, hashes);
        config.complete();
        BloomFilter { config, bit_set: bv_clone(bit_vec) }
    }

    /// Rebuilds a filter from a packed byte representation and the hash
    /// count it was built with; the size becomes eight bits per byte,
    /// each byte unpacked most significant bit first.
    pub fn from_u8_array(array: &[u8], hashes: u32) -> (r: BloomFilter)
        requires
            array@.len() >= 1,
            8 * array@.len() <= usize::MAX,
            hashes >= 1,
        ensures
            r.wf(),
            r.spec_size() == 8 * array@.len(),
            r.spec_hashes() == hashes,
            forall|i: int| 0 <= i < 8 * array@.len() ==> r.bits()[i] == #[trigger] packed_bit(array@, i),
    {
        let nbits = array.len() * 8;
        let mut config = FilterBuilder::from_size_and_hashes(nbits as u64, hashes);
        config.complete();
        BloomFilter { config, bit_set: bv_from_bytes(array) }
    }

    /// Rebuilds a filter from a packed 32-bit word representation and the
    /// hash count it was built with; the size becomes 32 bits per word,
    /// each word unpacked least significant bit first.
    pub fn from_u32_array(array: &[u32], hashes: u32) -> (r: BloomFilter)
        requires
            array@.len() >= 1,
            32 * array@.len() <= usize::MAX,
            hashes >= 1,
        ensures
            r.wf(),
            r.spec_size() == 32 * array@.len(),
            r.spec_hashes() == hashes,
            forall|i: int| 0 <= i < 32 * array@.len() ==> r.bits()[i] == #[trigger] word_at(array@, i),
    {
        let nbits = array.len() * 32;
        let mut bv = bv_new(nbits, false);
        let mut idx: usize = 0;
        while idx < nbits
            invariant
                idx <= nbits,
                nbits == 32 * array@.len(),
                bits_of(bv).len() == nbits,
                forall|i: int| 0 <= i < idx ==> bits_of(bv)[i] == #[trigger] word_at(array@, i),
            decreases nbits - idx,
        {
            let w = array[idx / 32];
            let b = (w >> ((idx % 32) as u32)) & 1u32 == 1u32;
            proof {
                assert(b == word_at(array@, idx as int));
            }
            bv_set(&mut bv, idx, b);
            idx = idx + 1;
        }
        let mut config = FilterBuilder::from_size_and_hashes(nbits as u64, hashes);
        config.complete();
        BloomFilter { config, bit_set: bv }
    }

    /// Inserts an element: takes the two base hashes of its bytes and
    /// sets all `k` probe positions to true. Re-adding an element whose
    /// probe bits are already set leaves the state unchanged.
    pub fn add(&mut self, element: &[u8])
        requires
            old(self).wf(),
        ensures
            final(self).wf(),
            final(self).spec_config() == old(self).spec_config(),
            final(self).bits() == with_probes(
                old(self).bits(),
                element@,
                old(self).spec_hashes(),
            ),
    {
        let ghost bits0 = self.bits();
        let ghost cfg0 = self.config;
        let ghost e = element@;
        let ghost em = self.config.size as nat;
        let ghost kk = self.config.hashes as nat;

        let m64: u64 = self.config.size;
        let m: u128 = m64 as u128;
        let k: u64 = self.config.hashes as u64;
        let h1: u64 = (murmur128(element, 0) % m) as u64;
        let h2: u64 = (murmur128(element, 32) % m) as u64;
        proof {
            assert(h1 == hash1(e, em));
            assert(h2 == hash2(e, em));
        }
        let mut i: u64 = 1;
        while i < k
            invariant
                self.config == cfg0,
                cfg0.valid(),
                m64 == cfg0.size,
                m == m64 as u128,
                k == cfg0.hashes as u64,
                em == m64 as nat,
                kk == k as nat,
                e == element@,
                h1 == hash1(e, em),
                h2 == hash2(e, em),
                h1 < m64,
                h2 < m64,
                1 <= i <= k,
                bits0.len() == em,
                bits_of(self.bit_set).len() == em,
                forall|j: int|
                    0 <= j < em ==> bits_of(self.bit_set)[j] == (bits0[j] || probe_hits_range(
                        e,
                        em,
                        1,
                        i as nat,
                        j,
                    )),
            decreases k - i,
        {
            proof {
                assert((i as int) * (h2 as int) <= 0xffff_ffff * 0xffff_ffff_ffff_ffffu64)
                    by (nonlinear_arith)
                    requires
                        0 <= i as int <= 0xffff_ffff,
                        0 <= h2 as int <= 0xffff_ffff_ffff_ffffu64,
                ;
            }
            let mo128: u128 = (h1 as u128 + (i as u128) * (h2 as u128)) % m;
            let mo: usize = mo128 as usize;
            proof {
                assert(mo128 < m);
                assert(mo as nat == probe_index(e, em, i as nat));
            }
            let ghost prev = bits_of(self.bit_set);
            bv_set(&mut self.bit_set, mo, true);
            proof {
                assert forall|j: int|
                    0 <= j < em implies bits_of(self.bit_set)[j] == (bits0[j] || probe_hits_range(
                        e,
                        em,
                        1,
                        (i + 1) as nat,
                        j,
                    )) by {
                    lemma_probe_hits_range_extend(e, em, 1, i as nat, j);
                }
            }
            i = i + 1;
        }
        let ghost prev = bits_of(self.bit_set);
        proof {
            assert(i as nat == kk);
            assert(forall|j: int|
                0 <= j < em ==> prev[j] == (bits0[j] || probe_hits_range(e, em, 1, kk, j)));
        }
        bv_set(&mut self.bit_set, h1 as usize, true);
        proof {
            lemma_probe_zero(e, em);
            assert forall|j: int|
                0 <= j < em implies bits_of(self.bit_set)[j] == (bits0[j] || probe_hits(
                    e,
                    em,
                    kk,
                    j,
                )) by {
                lemma_probe_hits_range_split_first(e, em, 0, kk, j);
                assert(prev[j] == (bits0[j] || probe_hits_range(e, em, 1, kk, j)));
                assert(bits_of(self.bit_set)[j] == if j == h1 as int {
                    true
                } else {
                    prev[j]
                });
                if j == h1 as int {
                    assert(probe_index(e, em, 0) == j);
                }
            }
            assert(bits_of(self.bit_set) =~= with_probes(bits0, e, kk));
        }
    }

    /// Tests membership: true only if all `k` probe positions of the
    /// element are set. An element inserted by `add` is always reported
    /// as possibly present; an element never inserted may collide and be
    /// reported present, but a single unset probe proves it absent.
    pub fn contains(&self, element: &[u8]) -> (r: bool)
        requires
            self.wf(),
        ensures
            r == all_probes_set(self.bits(), element@, self.spec_hashes()),
    {
        let ghost e = element@;
        let ghost em = self.config.size as nat;
        let ghost kk = self.config.hashes as nat;

        let m64: u64 = self.config.size;
        let m: u128 = m64 as u128;
        let k: u64 = self.config.hashes as u64;
        let h1: u64 = (murmur128(element, 0) % m) as u64;
        let h2: u64 = (murmur128(element, 32) % m) as u64;
        proof {
            assert(h1 == hash1(e, em));
            assert(h2 == hash2(e, em));
            lemma_probe_zero(e, em);
        }
        let mut res = get_bit(&self.bit_set, h1 as usize);
        proof {
            lemma_probes_set_range_extend(self.bits(), e, 0, 0);
        }
        let mut i: u64 = 1;
        while i < k
            invariant
                self.wf(),
                m64 == self.config.size,
                m == m64 as u128,
                k == self.config.hashes as u64,
                em == m64 as nat,
                kk == k as nat,
                e == element@,
                h1 == hash1(e, em),
                h2 == hash2(e, em),
                h1 < m64,
                h2 < m64,
                1 <= i <= k,
                res == probes_set_range(self.bits(), e, 0, i as nat),
            ensures
                i == k,
                res == probes_set_range(self.bits(), e, 0, kk),
            decreases k - i,
        {
            if !res {
                proof {
                    if all_probes_set(self.bits(), e, kk) {
                        lemma_probes_set_range_restrict(self.bits(), e, 0, kk, 0, i as nat);
                    }
                }
                return false;
            }
            proof {
                assert((i as int) * (h2 as int) <= 0xffff_ffff * 0xffff_ffff_ffff_ffffu64)
                    by (nonlinear_arith)
                    requires
                        0 <= i as int <= 0xffff_ffff,
                        0 <= h2 as int <= 0xffff_ffff_ffff_ffffu64,
                ;
            }
            let mo128: u128 = (h1 as u128 + (i as u128) * (h2 as u128)) % m;
            let mo: usize = mo128 as usize;
            proof {
                assert(mo128 < m);
                assert(mo as nat == probe_index(e, em, i as nat));
                lemma_probes_set_range_extend(self.bits(), e, 0, i as nat);
            }
            let b = get_bit(&self.bit_set, mo);
            res = res && b;
            i = i + 1;
        }
        res
    }

    /// Resets every bit to false; the configuration is unchanged.
    pub fn clear(&mut self)
        requires
            old(self).wf(),
        ensures
            final(self).wf(),
            final(self).spec_config() == old(self).spec_config(),
            final(self).bits() == Seq::new(old(self).bits().len(), |j: int| false),
    {
        bv_clear(&mut self.bit_set);
    }

    /// Reads the bit at `index`, or `None` when `index` is out of range:
    /// probing past the end is benign and does not fail.
    pub fn get(&self, index: usize) -> (r: Option<bool>)
        ensures
            index < self.bits().len() ==> r == Some(self.bits()[index as int]),
            index >= self.bits().len() ==> r is None,
    {
        bv_get(&self.bit_set, index)
    }

    /// Writes the bit at `index`, which must lie inside the bit array.
    pub fn set(&mut self, index: usize, to: bool)
        requires
            old(self).wf(),
            index < old(self).spec_size(),
        ensures
            final(self).wf(),
            final(self).spec_config() == old(self).spec_config(),
            final(self).bits() == old(self).bits().update(index as int, to),
    {
        bv_set(&mut self.bit_set, index, to)
    }

    /// Returns a copy of the bit array.
    pub fn get_bit_vec(&self) -> (r: bit_vec::BitVec)
        ensures
            bits_of(r) == self.bits(),
    {
        bv_clone(&self.bit_set)
    }

    /// Returns the bit array packed into bytes, the first bit as the most
    /// significant bit of the first byte, the last byte padded with false
    /// bits.
    pub fn get_u8_array(&self) -> (r: Vec<u8>)
        ensures
            r@.len() == (self.bits().len() + 7) / 8,
            forall|i: int|
                0 <= i < self.bits().len() ==> self.bits()[i] == #[trigger] packed_bit(r@, i),
            forall|i: int|
                self.bits().len() <= i < 8 * r@.len() ==> !(#[trigger] packed_bit(r@, i)),
    {
        bv_to_bytes(&self.bit_set)
    }

    /// Returns the bit array packed into 32-bit words, bit `i` at
    /// position `i % 32` from the least significant end of word `i / 32`,
    /// the unused high positions of the last word false.
    pub fn get_u32_array(&self) -> (r: Vec<u32>)
        ensures
            r@.len() == (self.bits().len() + 31) / 32,
            forall|i: int|
                0 <= i < self.bits().len() ==> self.bits()[i] == #[trigger] word_at(r@, i),
            forall|i: int|
                self.bits().len() <= i < 32 * r@.len() ==> !(#[trigger] word_at(r@, i)),
    {
        bv_blocks(&self.bit_set)
    }

    /// Union with a compatible filter: bitwise or of the two bit arrays,
    /// in place. Returns false, and changes nothing, when the
    /// configurations differ. The union is lossless: the result is the
    /// filter that direct insertion of both element sets would have
    /// produced.
    pub fn union(&mut self, other: &BloomFilter) -> (r: bool)
        requires
            old(self).wf(),
            other.wf(),
        ensures
            final(self).wf(),
            final(self).spec_config() == old(self).spec_config(),
            r == old(self).spec_config().spec_compatible(other.spec_config()),
            r ==> final(self).bits() == or_bits(old(self).bits(), other.bits()),
            !r ==> final(self).bits() == old(self).bits(),
    {
        if self.compatible(other) {
            bv_or(&mut self.bit_set, &other.bit_set);
            true
        } else {
            false
        }
    }

    /// Intersection with a compatible filter: bitwise and of the two bit
    /// arrays, in place. Returns false, and changes nothing, when the
    /// configurations differ. The intersection can overestimate the true
    /// overlap but never loses an element present in both filters.
    pub fn intersect(&mut self, other: &BloomFilter) -> (r: bool)
        requires
            old(self).wf(),
            other.wf(),
        ensures
            final(self).wf(),
            final(self).spec_config() == old(self).spec_config(),
            r == old(self).spec_config().spec_compatible(other.spec_config()),
            r ==> final(self).bits() == and_bits(old(self).bits(), other.bits()),
            !r ==> final(self).bits() == old(self).bits(),
    {
        if self.compatible(other) {
            bv_and(&mut self.bit_set, &other.bit_set);
            true
        } else {
            false
        }
    }

    /// True iff no bit is set.
    pub fn is_empty(&self) -> (r: bool)
        ensures
            r == all_unset(self.bits()),
    {
        bv_none(&self.bit_set)
    }

    /// Replaces the bit array. The new array must have exactly
    /// `config.size` bits: a replacement of the wrong length would
    /// silently desynchronize the stored bits from the hash index space,
    /// so a caller must reject such an array before calling.
    pub fn set_bit_vec(&mut self, bit_vec: bit_vec::BitVec)
        requires
            old(self).wf(),
            bits_of(bit_vec).len() == old(self).spec_size(),
        ensures
            final(self).wf(),
            final(self).spec_config() == old(self).spec_config(),
            final(self).bits() == bits_of(bit_vec),
    {
        self.bit_set = bit_vec;
    }

    /// Whether the two filters' configurations agree on size and hash
    /// count.
    fn compatible(&self, other: &BloomFilter) -> (r: bool)
        ensures
            r == self.spec_config().spec_compatible(other.spec_config()),
    {
        self.config.is_compatible_to(&other.config)
    }

    /// Returns a copy of the filter's configuration.
    pub fn config(&self) -> (r: FilterBuilder)
        ensures
            r == self.spec_config(),
    {
        self.config
    }

    /// Returns the number of hash probes per element.
    pub fn hashes(&self) -> (r: u32)
        ensures
            r == self.spec_config().hashes,
    {
        self.config.hashes
    }
}

} // verus!
