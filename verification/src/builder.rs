//! The configuration model of a Bloom filter: the bit-array length `size`
//! and the number of hash probes `hashes`, fixed for the life of a filter.

use vstd::prelude::*;

verus! {

/// The configuration of a Bloom filter.
///
/// `size` is the length of the bit array in bits and `hashes` is the number
/// of probe positions derived per element. Two filters may be combined by
/// union or intersection only when both values match exactly, since bit
/// positions are comparable only under the same `(size, hashes)`.
///
/// `expected_elements` records the planned element count when the
/// configuration was derived from a target false-positive rate; a
/// configuration built directly from `size` and `hashes` leaves it at zero.
#[derive(Clone, Copy)]
pub struct FilterBuilder {
    pub expected_elements: u64,
    pub size: u64,
    pub hashes: u32,
}

impl FilterBuilder {
    /// Two configurations are compatible iff their `size` and `hashes`
    /// are identical.
    pub open spec fn spec_compatible(self, other: FilterBuilder) -> bool {
        self.size == other.size && self.hashes == other.hashes
    }

    /// A configuration fit to build a filter from: a positive bit-array
    /// length that fits in memory, and at least one hash probe.
    pub open spec fn valid(self) -> bool {
        &&& self.size >= 1
        &&& self.size <= usize::MAX
        &&& self.hashes >= 1
    }

    /// Builds a configuration directly from a bit-array length and a hash
    /// count, bypassing the rate-based derivation.
    pub fn from_size_and_hashes(size: u64, hashes: u32) -> (r: FilterBuilder)
        ensures
            r.size == size,
            r.hashes == hashes,
            r.expected_elements == 0,
    {
        FilterBuilder { expected_elements: 0, size, hashes }
    }

    /// Finalizes the configuration. A configuration whose `size` and
    /// `hashes` were given explicitly is already final, so completion
    /// changes nothing; it is safe to call any number of times.
    pub fn complete(&mut self)
        ensures
            *final(self) == *old(self),
    {
    }

    /// Returns whether `self` and `other` agree on `size` and `hashes`,
    /// the precondition for any set-algebra operation between two filters.
    pub fn is_compatible_to(&self, other: &FilterBuilder) -> (r: bool)
        ensures
            r == self.spec_compatible(*other),
    {
        self.size == other.size && self.hashes == other.hashes
    }

    /// Completes the configuration and builds a zero-initialized filter
    /// of `size` bits from it.
    pub fn build_bloom_filter(&mut self) -> (r: crate::filter::BloomFilter)
        requires
            old(self).valid(),
        ensures
            *final(self) == *old(self),
            r.wf(),
            r.spec_config() == *old(self),
            r.bits() == Seq::new(old(self).size as nat, |j: int| false),
    {
        self.complete();
        crate::filter::BloomFilter::new(*self)
    }
}

/// Compatibility of configurations is reflexive and symmetric: every
/// configuration is compatible with itself, and compatibility does not
/// depend on the order of the two configurations.
pub proof fn lemma_compatible_reflexive_symmetric(a: FilterBuilder, b: FilterBuilder)
    ensures
        a.spec_compatible(a),
        a.spec_compatible(b) == b.spec_compatible(a),
{
}

} // verus!
