//! Account identifiers.

use vstd::prelude::*;

verus! {

/// A 160-bit account identifier, read as a big-endian number: `high` holds
/// its first four bytes, `mid` the next eight and `low` the last eight.
#[derive(Clone, Copy, Debug, PartialEq, Eq, Structural)]
pub struct Address {
    pub high: u32,
    pub mid: u64,
    pub low: u64,
}

impl Address {
    /// The null address, which stands for "not set".
    pub open spec fn null() -> Address {
        Address { high: 0, mid: 0, low: 0 }
    }

    /// The null address.
    pub fn zero() -> (r: Address)
        ensures
            r == Address::null(),
    {
        Address { high: 0, mid: 0, low: 0 }
    }

    /// The address made of the three words.
    pub fn new(high: u32, mid: u64, low: u64) -> (r: Address)
        ensures
            r == (Address { high, mid, low }),
    {
        Address { high, mid, low }
    }

    /// Whether this is the null address.
    pub fn is_zero(&self) -> (r: bool)
        ensures
            r == (*self == Address::null()),
    {
        self.high == 0 && self.mid == 0 && self.low == 0
    }
}

} // verus!
