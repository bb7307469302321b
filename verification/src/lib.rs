//! A 64-bit composite key made of two independent 32-bit hash halves,
//! packed into a single word that is never all-zero.
//!
//! The high half identifies an ancestor/prefix, the low half the full
//! (leaf) path. Because keys order primarily by the high half, all keys
//! sharing a high half form one contiguous run in any ordered collection,
//! reachable with a single range scan between the low-half minimum and
//! maximum bounds.

pub mod convert;
pub mod halves;
pub mod hashed;
pub mod key;
pub mod text;
pub mod word;

pub use halves::{pack, high_of, low_of, low_min_of, low_max_of, LOW_MASK, HIGH_MASK, HIGH_SHIFT};
pub use key::DualHashKey;
pub use word::NonZeroWord;

use vstd::prelude::*;

verus! {

/// Shorthand alias for [DualHashKey].
pub type DHK = DualHashKey;

} // verus!
