//! The packing arithmetic: how two 32-bit halves live inside one 64-bit
//! word, and the bit-level facts every other module builds on.

use vstd::prelude::*;

verus! {

/// Mask selecting the low half of a packed word.
pub const LOW_MASK: u64 = 0xFFFF_FFFF;

/// Mask selecting the high half of a packed word.
pub const HIGH_MASK: u64 = 0xFFFF_FFFF_0000_0000;

/// Bit offset of the high half within a packed word.
pub const HIGH_SHIFT: u64 = 32;

/// The packed word holding `high` in its top 32 bits and `low` in its
/// bottom 32 bits.
pub open spec fn pack(high: u32, low: u32) -> u64 {
    ((high as u64) << HIGH_SHIFT) | (low as u64)
}

/// The top 32 bits of a packed word.
pub open spec fn high_of(word: u64) -> u32 {
    (word >> HIGH_SHIFT) as u32
}

/// The bottom 32 bits of a packed word.
pub open spec fn low_of(word: u64) -> u32 {
    (word & LOW_MASK) as u32
}

/// The packed word with its low half cleared (the high half kept).
pub open spec fn low_min_of(word: u64) -> u64 {
    word & HIGH_MASK
}

/// The packed word with its low half forced to all-ones (the high half
/// kept).
pub open spec fn low_max_of(word: u64) -> u64 {
    word | LOW_MASK
}

/// Packing then unpacking gives the halves back, and the packed word is
/// zero exactly when both halves are.
pub proof fn lemma_pack_halves(high: u32, low: u32)
    by (bit_vector)
    ensures
        high_of(pack(high, low)) == high,
        low_of(pack(high, low)) == low,
        pack(high, low) == 0 <==> (high == 0 && low == 0),
{
}

/// Unpacking then packing gives the word back: the two halves determine
/// the whole word.
pub proof fn lemma_halves_pack(word: u64)
    by (bit_vector)
    ensures
        pack(high_of(word), low_of(word)) == word,
{
}

/// Replacing the high half: keeping the low bits and writing new top bits
/// is the same as packing the new high half with the old low half.
pub proof fn lemma_replace_high(word: u64, high: u32)
    by (bit_vector)
    ensures
        (word & LOW_MASK) | ((high as u64) << HIGH_SHIFT) == pack(high, low_of(word)),
{
}

/// Replacing the low half: keeping the top bits and writing new low bits
/// is the same as packing the old high half with the new low half.
pub proof fn lemma_replace_low(word: u64, low: u32)
    by (bit_vector)
    ensures
        (word & HIGH_MASK) | (low as u64) == pack(high_of(word), low),
{
}

/// What bound derivation does to the halves: the minimum bound clears the
/// low half and is zero exactly when the high half is; the maximum bound
/// fills the low half and is never zero.
pub proof fn lemma_bound_halves(word: u64)
    by (bit_vector)
    ensures
        high_of(low_min_of(word)) == high_of(word),
        low_of(low_min_of(word)) == 0,
        low_min_of(word) == 0 <==> high_of(word) == 0,
        high_of(low_max_of(word)) == high_of(word),
        low_of(low_max_of(word)) == 0xFFFF_FFFFu32,
        low_max_of(word) != 0,
{
}

/// Unsigned order of packed words goes by the high half first and the low
/// half second.
pub proof fn lemma_order_by_halves(a: u64, b: u64)
    by (bit_vector)
    ensures
        high_of(a) == high_of(b) ==> (a < b <==> low_of(a) < low_of(b)),
        high_of(a) != high_of(b) ==> (a < b <==> high_of(a) < high_of(b)),
{
}

/// A word lies inclusively between a query word's low-half minimum and
/// maximum bounds exactly when it shares the query's high half; the query
/// word itself always lies between its own bounds.
pub proof fn lemma_bounds_capture_high_half(query: u64, word: u64)
    by (bit_vector)
    ensures
        (low_min_of(query) <= word && word <= low_max_of(query)) <==> high_of(word) == high_of(
            query,
        ),
        low_min_of(query) <= query <= low_max_of(query),
{
}

} // verus!
