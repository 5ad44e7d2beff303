//! A Bloom filter: a fixed-size bit array together with a family of seeded
//! hash functions, answering set-membership queries with no false negatives
//! and a tunable false-positive rate.
//!
//! The filter owns its bits. `Bloom::put` sets the `k` bits that an item's
//! hash rounds select, `Bloom::has` reports whether all of them are set, and
//! `Bloom::clear` returns the filter to its just-constructed, all-false state.

pub mod bits;
pub mod filter;
pub mod hashing;
pub mod laws;

pub use filter::Bloom;
pub use filter::BloomError;
