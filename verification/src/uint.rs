//! 256-bit unsigned integers, held as four 64-bit limbs.
//!
//! The arithmetic itself is done by `alloy_primitives::U256`; the functions
//! at the end of this file hand the limbs over and state what comes back.

use vstd::prelude::*;

verus! {

/// A 256-bit unsigned integer. `l0` is the least significant limb.
#[derive(Clone, Copy, Debug, PartialEq, Eq, Structural)]
pub struct U256 {
    pub l0: u64,
    pub l1: u64,
    pub l2: u64,
    pub l3: u64,
}

/// Two to the power 256: one more than the largest `U256`.
pub open spec fn modulus() -> nat {
    0x1_0000_0000_0000_0000_0000_0000_0000_0000nat * 0x1_0000_0000_0000_0000_0000_0000_0000_0000nat
}

impl View for U256 {
    type V = nat;

    /// The number that the four limbs stand for.
    open spec fn view(&self) -> nat {
        (self.l0 as nat) + (self.l1 as nat) * 0x1_0000_0000_0000_0000nat + ((self.l2 as nat) + (
        self.l3 as nat) * 0x1_0000_0000_0000_0000nat) * 0x1_0000_0000_0000_0000_0000_0000_0000_0000nat
    }
}

impl U256 {
    /// The number `x`.
    pub fn from_u64(x: u64) -> (r: U256)
        ensures
            r@ == x,
    {
        U256 { l0: x, l1: 0, l2: 0, l3: 0 }
    }

    /// Zero.
    pub fn zero() -> (r: U256)
        ensures
            r@ == 0,
    {
        U256 { l0: 0, l1: 0, l2: 0, l3: 0 }
    }

    /// The largest value, two to the power 256 less one.
    pub fn max_value() -> (r: U256)
        ensures
            r@ == modulus() - 1,
    {
        U256 {
            l0: 0xffff_ffff_ffff_ffff,
            l1: 0xffff_ffff_ffff_ffff,
            l2: 0xffff_ffff_ffff_ffff,
            l3: 0xffff_ffff_ffff_ffff,
        }
    }

    /// The number made of four limbs, least significant first.
    pub fn from_limbs(limbs: [u64; 4]) -> (r: U256)
        ensures
            r == (U256 { l0: limbs[0], l1: limbs[1], l2: limbs[2], l3: limbs[3] }),
    {
        U256 { l0: limbs[0], l1: limbs[1], l2: limbs[2], l3: limbs[3] }
    }

    /// The four limbs, least significant first.
    pub fn to_limbs(&self) -> (r: [u64; 4])
        ensures
            r[0] == self.l0,
            r[1] == self.l1,
            r[2] == self.l2,
            r[3] == self.l3,
    {
        [self.l0, self.l1, self.l2, self.l3]
    }

    /// Whether the number is zero.
    pub fn is_zero(&self) -> (r: bool)
        ensures
            r == (self@ == 0),
    {
        self.l0 == 0 && self.l1 == 0 && self.l2 == 0 && self.l3 == 0
    }

    /// The number as a `u64`, where it fits in one.
    pub fn to_u64(&self) -> (r: Option<u64>)
        ensures
            self@ <= u64::MAX ==> r == Some(self@ as u64),
            self@ > u64::MAX ==> r.is_none(),
    {
        if self.l1 == 0 && self.l2 == 0 && self.l3 == 0 {
            Some(self.l0)
        } else {
            None
        }
    }
}

/// Every `U256` is below two to the power 256.
pub proof fn lemma_view_bound(a: U256)
    ensures
        a@ < modulus(),
{
}

/// Two `U256` that stand for the same number have the same limbs.
pub proof fn lemma_view_injective(a: U256, b: U256)
    requires
        a@ == b@,
    ensures
        a == b,
{
}

/// `alloy_primitives::U256::checked_add`: the sum of the two numbers, or `None`
/// where the sum does not fit in 256 bits.
#[verifier::external_body]
pub(crate) fn checked_add(a: U256, b: U256) -> (r: Option<U256>)
    ensures
        r.is_some() <==> a@ + b@ < modulus(),
        r matches Some(v) ==> v@ == a@ + b@,
{
    let x = alloy_primitives::U256::from_limbs(a.to_limbs());
    let y = alloy_primitives::U256::from_limbs(b.to_limbs());
    match x.checked_add(y) {
        Some(v) => Some(U256::from_limbs(v.into_limbs())),
        None => None,
    }
}

/// `alloy_primitives::U256::checked_mul`: the product of the two numbers, or
/// `None` where the product does not fit in 256 bits.
#[verifier::external_body]
pub(crate) fn checked_mul(a: U256, b: U256) -> (r: Option<U256>)
    ensures
        r.is_some() <==> a@ * b@ < modulus(),
        r matches Some(v) ==> v@ == a@ * b@,
{
    let x = alloy_primitives::U256::from_limbs(a.to_limbs());
    let y = alloy_primitives::U256::from_limbs(b.to_limbs());
    match x.checked_mul(y) {
        Some(v) => Some(U256::from_limbs(v.into_limbs())),
        None => None,
    }
}

/// `alloy_primitives::U256::checked_div`: the quotient rounded down, or `None`
/// where the divisor is zero.
#[verifier::external_body]
pub(crate) fn checked_div(a: U256, b: U256) -> (r: Option<U256>)
    ensures
        r.is_some() <==> b@ != 0,
        r matches Some(v) ==> v@ == a@ / b@,
{
    let x = alloy_primitives::U256::from_limbs(a.to_limbs());
    let y = alloy_primitives::U256::from_limbs(b.to_limbs());
    match x.checked_div(y) {
        Some(v) => Some(U256::from_limbs(v.into_limbs())),
        None => None,
    }
}

/// `alloy_primitives::U256::saturating_sub`: the difference, or zero where the
/// second number is the larger.
#[verifier::external_body]
pub(crate) fn saturating_sub(a: U256, b: U256) -> (r: U256)
    ensures
        a@ >= b@ ==> r@ == a@ - b@,
        a@ < b@ ==> r@ == 0,
{
    let x = alloy_primitives::U256::from_limbs(a.to_limbs());
    let y = alloy_primitives::U256::from_limbs(b.to_limbs());
    U256::from_limbs(x.saturating_sub(y).into_limbs())
}

/// The operator `<` of `alloy_primitives::U256`: whether the first number is
/// the smaller.
#[verifier::external_body]
pub(crate) fn less_than(a: U256, b: U256) -> (r: bool)
    ensures
        r == (a@ < b@),
{
    let x = alloy_primitives::U256::from_limbs(a.to_limbs());
    let y = alloy_primitives::U256::from_limbs(b.to_limbs());
    x < y
}

} // verus!
