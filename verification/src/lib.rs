//! A Bloom filter: a probabilistic set-membership structure.
//!
//! Given a stream of elements, the filter answers "definitely absent" or
//! "possibly present" using a fixed-size bit array, with a bounded
//! false-positive rate and no false negatives.

pub mod builder;
pub mod bits;
pub mod hashing;
pub mod filter;
pub mod laws;

pub use builder::FilterBuilder;
pub use filter::BloomFilter;
