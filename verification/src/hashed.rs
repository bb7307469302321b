//! Construction and derivation of keys from byte sequences and strings,
//! hashed through the external 32-bit FNV-1a function.
//!
//! The hash itself is an external collaborator: its result is named by
//! [`fnv32_of`] and never restated here, and every contract below is
//! exact in terms of that name.

use vstd::prelude::*;

use vstd::string::StringSliceAdditionalSpecFns;

use crate::halves::pack;
use crate::key::DualHashKey;

verus! {

/// The 32-bit FNV-1a hash of a byte sequence, as the external hash
/// function computes it. It depends on the bytes alone.
pub uninterp spec fn fnv32_of(bytes: Seq<u8>) -> u32;

/// Relies on const_fnv1a_hash::fnv1a_hash_32, which with no limit hashes
/// the whole slice; its result depends on the bytes alone.
#[verifier::external_body]
pub(crate) fn fnv32_bytes(bytes: &[u8]) -> (r: u32)
    ensures
        r == fnv32_of(bytes@),
{
    const_fnv1a_hash::fnv1a_hash_32(bytes, None)
}

/// Relies on const_fnv1a_hash::fnv1a_hash_str_32, which hashes the
/// string's UTF-8 bytes with fnv1a_hash_32 and no limit; its result
/// depends on those bytes alone.
#[verifier::external_body]
pub(crate) fn fnv32_str(input: &str) -> (r: u32)
    ensures
        r == fnv32_of(input.spec_bytes()),
{
    const_fnv1a_hash::fnv1a_hash_str_32(input)
}

impl DualHashKey {
    /// Creates a new key from the pair of high and low byte sequences,
    /// each hashed into its half; fails exactly when both hashes are
    /// zero.
    pub fn from_dual_bytes(high: &[u8], low: &[u8]) -> (r: Option<Self>)
        ensures
            ({
                let h = fnv32_of(high@);
                let l = fnv32_of(low@);
                &&& r is Some <==> !(h == 0 && l == 0)
                &&& r matches Some(k) ==> k.raw() == pack(h, l) && k.high() == h && k.low() == l
            }),
    {
        Self::from_raw_dual(fnv32_bytes(high), fnv32_bytes(low))
    }

    /// Creates a new key from the pair of high and low strings, each
    /// hashed into its half; fails exactly when both hashes are zero.
    pub fn from_dual_str(high: &str, low: &str) -> (r: Option<Self>)
        ensures
            ({
                let h = fnv32_of(high.spec_bytes());
                let l = fnv32_of(low.spec_bytes());
                &&& r is Some <==> !(h == 0 && l == 0)
                &&& r matches Some(k) ==> k.raw() == pack(h, l) && k.high() == h && k.low() == l
            }),
    {
        Self::from_raw_dual(fnv32_str(high), fnv32_str(low))
    }

    /// Creates a new key from the high byte sequence, hashed into the
    /// high half, with the low half zeroed; fails exactly when the hash
    /// is zero.
    pub fn from_high_bytes(high: &[u8]) -> (r: Option<Self>)
        ensures
            ({
                let h = fnv32_of(high@);
                &&& r is Some <==> h != 0
                &&& r matches Some(k) ==> k.raw() == pack(h, 0) && k.high() == h && k.low() == 0
            }),
    {
        Self::from_raw_high(fnv32_bytes(high))
    }

    /// Creates a new key from the high string, hashed into the high
    /// half, with the low half zeroed; fails exactly when the hash is
    /// zero.
    pub fn from_high_str(high: &str) -> (r: Option<Self>)
        ensures
            ({
                let h = fnv32_of(high.spec_bytes());
                &&& r is Some <==> h != 0
                &&& r matches Some(k) ==> k.raw() == pack(h, 0) && k.high() == h && k.low() == 0
            }),
    {
        Self::from_raw_high(fnv32_str(high))
    }

    /// A new key with the high half replaced by the hash of the given
    /// bytes and the low half kept; fails exactly when that hash and the
    /// kept low half are both zero.
    pub fn with_high_half_bytes(&self, high: &[u8]) -> (r: Option<Self>)
        ensures
            ({
                let h = fnv32_of(high@);
                &&& r is Some <==> !(h == 0 && self.low() == 0)
                &&& r matches Some(k) ==> k.raw() == pack(h, self.low()) && k.high() == h
                    && k.low() == self.low()
            }),
    {
        self.with_high_half_raw(fnv32_bytes(high))
    }

    /// A new key with the high half replaced by the hash of the given
    /// string and the low half kept; fails exactly when that hash and
    /// the kept low half are both zero.
    pub fn with_high_half_str(&self, high: &str) -> (r: Option<Self>)
        ensures
            ({
                let h = fnv32_of(high.spec_bytes());
                &&& r is Some <==> !(h == 0 && self.low() == 0)
                &&& r matches Some(k) ==> k.raw() == pack(h, self.low()) && k.high() == h
                    && k.low() == self.low()
            }),
    {
        self.with_high_half_raw(fnv32_str(high))
    }

    /// A new key with the low half replaced by the hash of the given
    /// bytes and the high half kept; fails exactly when the kept high
    /// half and that hash are both zero.
    pub fn with_low_half_bytes(&self, low: &[u8]) -> (r: Option<Self>)
        ensures
            ({
                let l = fnv32_of(low@);
                &&& r is Some <==> !(self.high() == 0 && l == 0)
                &&& r matches Some(k) ==> k.raw() == pack(self.high(), l) && k.high()
                    == self.high() && k.low() == l
            }),
    {
        self.with_low_half_raw(fnv32_bytes(low))
    }

    /// A new key with the low half replaced by the hash of the given
    /// string and the high half kept; fails exactly when the kept high
    /// half and that hash are both zero.
    pub fn with_low_half_str(&self, low: &str) -> (r: Option<Self>)
        ensures
            ({
                let l = fnv32_of(low.spec_bytes());
                &&& r is Some <==> !(self.high() == 0 && l == 0)
                &&& r matches Some(k) ==> k.raw() == pack(self.high(), l) && k.high()
                    == self.high() && k.low() == l
            }),
    {
        self.with_low_half_raw(fnv32_str(low))
    }
}

} // verus!
