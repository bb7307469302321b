//! Fallible conversions into keys from external representations, each
//! failure carrying a distinct static message naming which input
//! produced the all-zero word.

use vstd::prelude::*;
use vstd::string::StringSliceAdditionalSpecFns;

use crate::halves::pack;
use crate::hashed::fnv32_of;
use crate::key::DualHashKey;

verus! {

impl DualHashKey {
    /// Fallible conversion from a raw 64-bit word; fails exactly on
    /// zero, with a message naming the raw word as the cause.
    pub fn try_from_raw(value: u64) -> (r: Result<Self, &'static str>)
        ensures
            r is Ok <==> value != 0,
            r matches Ok(k) ==> k.raw() == value,
            r matches Err(m) ==> m@ == "value given to DHK::from_raw is zero"@,
    {
        match Self::from_raw(value) {
            Some(k) => Ok(k),
            None => Err("value given to DHK::from_raw is zero"),
        }
    }

    /// Fallible conversion from a byte sequence, hashed into the high
    /// half; fails exactly when the hash is zero, with a message naming
    /// the byte input as the cause.
    pub fn try_from_bytes(value: &[u8]) -> (r: Result<Self, &'static str>)
        ensures
            r is Ok <==> fnv32_of(value@) != 0,
            r matches Ok(k) ==> k.raw() == pack(fnv32_of(value@), 0),
            r matches Err(m) ==> m@ == "generated hash of high-half bytes is zero"@,
    {
        match Self::from_high_bytes(value) {
            Some(k) => Ok(k),
            None => Err("generated hash of high-half bytes is zero"),
        }
    }

    /// Fallible conversion from a string, hashed into the high half;
    /// fails exactly when the hash is zero, with a message naming the
    /// string input as the cause.
    pub fn try_from_str(value: &str) -> (r: Result<Self, &'static str>)
        ensures
            r is Ok <==> fnv32_of(value.spec_bytes()) != 0,
            r matches Ok(k) ==> k.raw() == pack(fnv32_of(value.spec_bytes()), 0),
            r matches Err(m) ==> m@ == "generated hash of high-half string is zero"@,
    {
        match Self::from_high_str(value) {
            Some(k) => Ok(k),
            None => Err("generated hash of high-half string is zero"),
        }
    }
}

} // verus!
