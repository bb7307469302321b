//! The key type itself: a packed 64-bit word made of two 32-bit hash
//! halves, never all-zero, with constructors, accessors, derivation of
//! new keys, and the low-half bounds that drive prefix range queries.

use vstd::prelude::*;

use crate::halves::{
    pack, high_of, low_of, low_min_of, low_max_of, lemma_pack_halves, lemma_halves_pack,
    lemma_replace_high, lemma_replace_low, lemma_bound_halves, lemma_order_by_halves,
    lemma_bounds_capture_high_half, LOW_MASK, HIGH_MASK, HIGH_SHIFT,
};
use crate::word::{NonZeroWord, lemma_word_determines};

verus! {

/// A 64-bit key made of two 32-bit hashes, whose packed word is never
/// zero.
///
/// The high half should come from a parent/prefix of what the low half
/// comes from; an ordered collection keyed by these can then be walked
/// hierarchically, finding every key that shares a high half with one
/// range query between [`DualHashKey::get_hash_low_half_min`] and
/// [`DualHashKey::get_hash_low_half_max`].
///
/// Keys are plain immutable values: every operation that "changes" a key
/// returns a new one. Their natural order is the unsigned order of the
/// packed word, which sorts by high half first and low half second.
///
/// As a key of a hash-based collection, the key contributes its raw
/// word and nothing else. Pair it with a pass-through (identity) hasher:
/// a strong mixing hash would only dilute bits that the external hash
/// function has already distributed, at double-hashing cost.
///
/// The canonical textual form is the bare `HHHHHHHH.LLLLLLLL`
/// (see [`DualHashKey::to_hex_string`]); the wrapped
/// `DualHashKey(HHHHHHHH.LLLLLLLL)` is the richer display form
/// (see [`DualHashKey::to_display_string`]). The derived `Debug` shows
/// the raw structure and is not the canonical form.
#[derive(Clone, Copy, PartialEq, Eq, Structural, PartialOrd, Ord, Hash, Debug)]
pub struct DualHashKey {
    hash: NonZeroWord,
}

impl DualHashKey {
    /// The packed 64-bit word.
    pub closed spec fn raw(self) -> u64 {
        self.hash.word()
    }

    /// The non-zero invariant: established by every constructor.
    pub open spec fn valid(self) -> bool {
        self.raw() != 0
    }

    /// The high half of the packed word.
    pub open spec fn high(self) -> u32 {
        high_of(self.raw())
    }

    /// The low half of the packed word.
    pub open spec fn low(self) -> u32 {
        low_of(self.raw())
    }

    /// The packed word with this key's halves exchanged.
    pub open spec fn swapped_word(self) -> u64 {
        pack(self.low(), self.high())
    }

    /// Creates a new key from a raw 64-bit word; fails exactly on zero.
    pub fn from_raw(hash: u64) -> (r: Option<Self>)
        ensures
            r is Some <==> hash != 0,
            r matches Some(k) ==> k.raw() == hash,
    {
        match NonZeroWord::new(hash) {
            Some(hash) => Some(Self { hash }),
            None => None,
        }
    }

    /// Creates a new key from two raw 32-bit halves; fails exactly when
    /// both are zero.
    pub fn from_raw_dual(high: u32, low: u32) -> (r: Option<Self>)
        ensures
            r is Some <==> !(high == 0 && low == 0),
            r matches Some(k) ==> k.raw() == pack(high, low) && k.high() == high && k.low()
                == low,
    {
        proof {
            lemma_pack_halves(high, low);
        }
        Self::from_raw(((high as u64) << HIGH_SHIFT) | (low as u64))
    }

    /// Creates a new key from a raw 32-bit high half, the low half
    /// zeroed; fails exactly when the high half is zero.
    pub fn from_raw_high(high: u32) -> (r: Option<Self>)
        ensures
            r is Some <==> high != 0,
            r matches Some(k) ==> k.raw() == pack(high, 0) && k.high() == high && k.low() == 0,
    {
        proof {
            lemma_pack_halves(high, 0);
            assert((high as u64) << HIGH_SHIFT == pack(high, 0)) by (bit_vector);
        }
        Self::from_raw((high as u64) << HIGH_SHIFT)
    }

    /// Directly creates a new key from a raw 64-bit word with no run-time
    /// check; the caller must prove the word non-zero.
    pub fn from_raw_unchecked(hash: u64) -> (r: Self)
        requires
            hash != 0,
        ensures
            r.raw() == hash,
            r.valid(),
    {
        Self { hash: NonZeroWord::new_unchecked(hash) }
    }

    /// A new key with the low and high halves exchanged.
    ///
    /// On a valid key this never fails: at least one half of a non-zero
    /// word is non-zero, and it stays non-zero in its new position.
    pub fn swapped(&self) -> (r: Option<Self>)
        ensures
            r is Some <==> self.valid(),
            r matches Some(k) ==> k.raw() == self.swapped_word() && k.high() == self.low()
                && k.low() == self.high(),
    {
        proof {
            lemma_halves_pack(self.raw());
            lemma_pack_halves(self.high(), self.low());
            lemma_pack_halves(self.low(), self.high());
        }
        Self::from_raw_dual(self.get_hash_low_half(), self.get_hash_high_half())
    }

    /// A new key with the high half replaced and the low half kept; fails
    /// exactly when the new high half and the kept low half are both
    /// zero.
    pub fn with_high_half_raw(&self, high: u32) -> (r: Option<Self>)
        ensures
            r is Some <==> !(high == 0 && self.low() == 0),
            r matches Some(k) ==> k.raw() == pack(high, self.low()) && k.high() == high
                && k.low() == self.low(),
    {
        proof {
            lemma_replace_high(self.raw(), high);
            lemma_pack_halves(high, self.low());
        }
        Self::from_raw((self.get_hash_raw() & LOW_MASK) | ((high as u64) << HIGH_SHIFT))
    }

    /// A new key with the low half replaced and the high half kept; fails
    /// exactly when the kept high half and the new low half are both
    /// zero.
    pub fn with_low_half_raw(&self, low: u32) -> (r: Option<Self>)
        ensures
            r is Some <==> !(self.high() == 0 && low == 0),
            r matches Some(k) ==> k.raw() == pack(self.high(), low) && k.high() == self.high()
                && k.low() == low,
    {
        proof {
            lemma_replace_low(self.raw(), low);
            lemma_pack_halves(self.high(), low);
        }
        Self::from_raw((self.get_hash_raw() & HIGH_MASK) | (low as u64))
    }

    /// The lowest representable key, with packed word 1: the fallback
    /// lower bound of a range scan when the low-half minimum fails
    /// because the high half is zero.
    pub fn min_key() -> (r: Self)
        ensures
            r.raw() == 1,
            r.high() == 0,
            r.low() == 1,
    {
        proof {
            assert(high_of(1u64) == 0 && low_of(1u64) == 1) by (bit_vector);
        }
        Self::from_raw_unchecked(1)
    }

    /// The highest representable key, with every bit of the packed word
    /// set.
    pub fn max_key() -> (r: Self)
        ensures
            r.raw() == u64::MAX,
            r.high() == 0xFFFF_FFFFu32,
            r.low() == 0xFFFF_FFFFu32,
    {
        proof {
            assert(high_of(u64::MAX) == 0xFFFF_FFFFu32 && low_of(u64::MAX) == 0xFFFF_FFFFu32)
                by (bit_vector);
        }
        Self::from_raw_unchecked(u64::MAX)
    }

    /// Infallible conversion from an already-validated non-zero word.
    pub fn from_word(hash: NonZeroWord) -> (r: Self)
        ensures
            r.raw() == hash.word(),
    {
        Self { hash }
    }

    /// The wrapped non-zero word.
    pub fn get_hash(&self) -> (r: NonZeroWord)
        ensures
            r.word() == self.raw(),
    {
        self.hash
    }

    /// The wrapped word as a plain 64-bit integer.
    ///
    /// This is the same as `key.get_hash().get()`.
    pub fn get_hash_raw(&self) -> (r: u64)
        ensures
            r == self.raw(),
    {
        self.hash.get()
    }

    /// The high half of the key.
    pub fn get_hash_high_half(&self) -> (r: u32)
        ensures
            r == self.high(),
    {
        (self.get_hash_raw() >> HIGH_SHIFT) as u32
    }

    /// The low half of the key.
    pub fn get_hash_low_half(&self) -> (r: u32)
        ensures
            r == self.low(),
    {
        (self.get_hash_raw() & LOW_MASK) as u32
    }

    /// Whether the low half has any bit set.
    pub fn is_hash_low_half_set(&self) -> (r: bool)
        ensures
            r == (self.low() != 0),
    {
        self.get_hash_low_half() != 0
    }

    /// Whether the low half has no bit set.
    pub fn is_hash_low_half_clear(&self) -> (r: bool)
        ensures
            r == (self.low() == 0),
    {
        self.get_hash_low_half() == 0
    }

    /// The raw word with the low half cleared: the inclusive lower bound
    /// of the ordered range holding every key with this key's high half.
    pub fn get_hash_low_half_min_raw(&self) -> (r: u64)
        ensures
            r == low_min_of(self.raw()),
            high_of(r) == self.high(),
            low_of(r) == 0,
    {
        proof {
            lemma_bound_halves(self.raw());
        }
        self.get_hash_raw() & HIGH_MASK
    }

    /// The raw word with the low half filled: the inclusive upper bound
    /// of the ordered range holding every key with this key's high half.
    pub fn get_hash_low_half_max_raw(&self) -> (r: u64)
        ensures
            r == low_max_of(self.raw()),
            high_of(r) == self.high(),
            low_of(r) == 0xFFFF_FFFFu32,
            r != 0,
    {
        proof {
            lemma_bound_halves(self.raw());
        }
        self.get_hash_raw() | LOW_MASK
    }

    /// The key with the low half cleared; fails exactly when the high
    /// half is zero, since the result would be the all-zero word.
    pub fn get_hash_low_half_min(&self) -> (r: Option<Self>)
        ensures
            r is Some <==> self.high() != 0,
            r matches Some(k) ==> k.raw() == low_min_of(self.raw()) && k.high() == self.high()
                && k.low() == 0,
    {
        proof {
            lemma_bound_halves(self.raw());
        }
        Self::from_raw(self.get_hash_low_half_min_raw())
    }

    /// The key with the low half filled.
    ///
    /// Forcing the low half to all-ones makes the word non-zero whatever
    /// the high half holds, so this can never fail.
    pub fn get_hash_low_half_max(&self) -> (r: Self)
        ensures
            r.raw() == low_max_of(self.raw()),
            r.high() == self.high(),
            r.low() == 0xFFFF_FFFFu32,
            r.valid(),
    {
        proof {
            lemma_bound_halves(self.raw());
        }
        Self::from_raw_unchecked(self.get_hash_low_half_max_raw())
    }
}

/// The packed word determines the key: two keys with equal raw words are
/// equal values.
pub proof fn lemma_raw_determines_key(a: DualHashKey, b: DualHashKey)
    ensures
        a.raw() == b.raw() ==> a == b,
{
    if a.raw() == b.raw() {
        lemma_word_determines(a.hash, b.hash);
    }
}

/// Ordering law: keys with equal high halves order by their low halves,
/// and keys with differing high halves order by their high halves,
/// whatever their low halves are. (A key's natural order is the unsigned
/// order of its packed word.)
pub proof fn lemma_order_follows_halves(a: DualHashKey, b: DualHashKey)
    ensures
        a.high() == b.high() ==> (a.raw() < b.raw() <==> a.low() < b.low()),
        a.high() != b.high() ==> (a.raw() < b.raw() <==> a.high() < b.high()),
{
    lemma_order_by_halves(a.raw(), b.raw());
}

/// Swap law: swapping is an involution and preserves validity. If `s` is
/// the swap of `k` and `t` is the swap of `s`, then `t` is `k` again; and
/// the swap of a valid key is itself valid, so swapping never fails.
pub proof fn lemma_swap_involution(k: DualHashKey, s: DualHashKey, t: DualHashKey)
    requires
        s.raw() == k.swapped_word(),
        t.raw() == s.swapped_word(),
    ensures
        t == k,
        k.valid() ==> s.valid(),
{
    lemma_pack_halves(k.low(), k.high());
    lemma_halves_pack(k.raw());
    lemma_raw_determines_key(t, k);
}

/// Range-query law: a key lies inclusively between a query key's low-half
/// minimum and maximum bound words exactly when it shares the query's
/// high half, and the query key itself always lies between its own
/// bounds. Together with [`lemma_order_follows_halves`], an ordered scan
/// over `[low_min_of(q.raw()), low_max_of(q.raw())]` therefore returns
/// exactly the keys whose high half is `q.high()`, in ascending low-half
/// order.
pub proof fn lemma_bounds_select_high_half(q: DualHashKey, k: DualHashKey)
    ensures
        (low_min_of(q.raw()) <= k.raw() && k.raw() <= low_max_of(q.raw())) <==> k.high()
            == q.high(),
        low_min_of(q.raw()) <= q.raw() <= low_max_of(q.raw()),
{
    lemma_bounds_capture_high_half(q.raw(), k.raw());
}

} // verus!
