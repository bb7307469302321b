//! A 64-bit word that has been validated to be non-zero: the checked form
//! a key's packed word takes once construction has succeeded.

use vstd::prelude::*;

verus! {

/// A 64-bit word whose public constructors guarantee it is non-zero.
///
/// This is the invariant-carrying core of the key type: every checked
/// construction path produces one of these, and the single unchecked
/// constructor puts the burden of proof on its caller.
#[derive(Clone, Copy, PartialEq, Eq, Structural, PartialOrd, Ord, Hash, Debug)]
pub struct NonZeroWord {
    value: u64,
}

impl NonZeroWord {
    /// The wrapped 64-bit word.
    pub closed spec fn word(self) -> u64 {
        self.value
    }

    /// The non-zero invariant every constructed word satisfies.
    pub open spec fn wf(self) -> bool {
        self.word() != 0
    }

    /// Validating constructor: succeeds exactly on non-zero words.
    pub fn new(value: u64) -> (r: Option<NonZeroWord>)
        ensures
            r is Some <==> value != 0,
            r matches Some(w) ==> w.word() == value && w.wf(),
    {
        if value != 0 {
            Some(NonZeroWord { value })
        } else {
            None
        }
    }

    /// Unchecked constructor: the caller must establish that the word is
    /// non-zero; no run-time check is made.
    pub fn new_unchecked(value: u64) -> (r: NonZeroWord)
        requires
            value != 0,
        ensures
            r.word() == value,
            r.wf(),
    {
        NonZeroWord { value }
    }

    /// The wrapped word as a plain integer.
    pub fn get(&self) -> (r: u64)
        ensures
            r == self.word(),
    {
        self.value
    }
}

/// The wrapped word determines the whole value: two non-zero words with
/// equal contents are equal.
pub proof fn lemma_word_determines(a: NonZeroWord, b: NonZeroWord)
    ensures
        a.word() == b.word() ==> a == b,
{
}

} // verus!
