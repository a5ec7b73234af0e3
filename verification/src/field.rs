//! The prime fields over which traces are built, with their arithmetic on
//! canonical representatives.

use p3_baby_bear::BabyBear;
use p3_field::{PrimeCharacteristicRing, PrimeField64};
use p3_goldilocks::Goldilocks;
use vstd::prelude::*;

verus! {

/// The BabyBear prime, `2^31 - 2^27 + 1`.
pub const BABY_BEAR_ORDER: u64 = 2013265921;

/// The Goldilocks prime, `2^64 - 2^32 + 1`.
pub const GOLDILOCKS_ORDER: u64 = 18446744069414584321;

/// A prime field in which trace cells live. A cell is held as its canonical
/// representative, the one integer below the field's order.
#[derive(Clone, Copy, Debug, PartialEq, Eq, Structural)]
pub enum TraceField {
    BabyBear,
    Goldilocks,
}

impl TraceField {
    /// The number of elements of the field.
    pub open spec fn modulus(self) -> nat {
        match self {
            TraceField::BabyBear => 2013265921,
            TraceField::Goldilocks => 18446744069414584321,
        }
    }

    /// The number of elements of the field.
    pub fn order(self) -> (p: u64)
        ensures
            p == self.modulus(),
    {
        match self {
            TraceField::BabyBear => BABY_BEAR_ORDER,
            TraceField::Goldilocks => GOLDILOCKS_ORDER,
        }
    }

    /// Whether `x` is a canonical representative.
    pub fn is_canonical(self, x: u64) -> (ok: bool)
        ensures
            ok == (x < self.modulus()),
    {
        x < self.order()
    }

    /// The field element that the integer `x` stands for.
    pub fn from_u64(self, x: u64) -> (r: u64)
        ensures
            r == x as nat % self.modulus(),
    {
        match self {
            TraceField::BabyBear => baby_bear_from_u64(x),
            TraceField::Goldilocks => goldilocks_from_u64(x),
        }
    }

    /// The sum of two field elements.
    pub fn add(self, x: u64, y: u64) -> (r: u64)
        ensures
            r == (x as nat + y as nat) % self.modulus(),
    {
        match self {
            TraceField::BabyBear => baby_bear_add(x, y),
            TraceField::Goldilocks => goldilocks_add(x, y),
        }
    }

    /// The element that follows `x` when counting in the field.
    pub fn successor(self, x: u64) -> (r: u64)
        ensures
            r == (x as nat + 1) % self.modulus(),
    {
        self.add(x, 1)
    }
}

/// Calls `BabyBear::from_u64` and reads the element back with
/// `as_canonical_u64`. Trusted: the element made from `x` is `x` reduced
/// modulo the BabyBear prime, and its canonical form lies below the prime.
#[verifier::external_body]
fn baby_bear_from_u64(x: u64) -> (r: u64)
    ensures
        r == x as nat % 2013265921,
{
    BabyBear::from_u64(x).as_canonical_u64()
}

/// Calls `+` on two BabyBear elements made with `BabyBear::from_u64`, and
/// reads the sum back with `as_canonical_u64`. Trusted: the field's addition
/// is addition of integers modulo the BabyBear prime.
#[verifier::external_body]
fn baby_bear_add(x: u64, y: u64) -> (r: u64)
    ensures
        r == (x as nat + y as nat) % 2013265921,
{
    (BabyBear::from_u64(x) + BabyBear::from_u64(y)).as_canonical_u64()
}

/// Calls `Goldilocks::from_u64` and reads the element back with
/// `as_canonical_u64`. Trusted: the element made from `x` is `x` reduced
/// modulo the Goldilocks prime, and its canonical form lies below the prime.
#[verifier::external_body]
fn goldilocks_from_u64(x: u64) -> (r: u64)
    ensures
        r == x as nat % 18446744069414584321,
{
    Goldilocks::from_u64(x).as_canonical_u64()
}

/// Calls `+` on two Goldilocks elements made with `Goldilocks::from_u64`, and
/// reads the sum back with `as_canonical_u64`. Trusted: the field's addition
/// is addition of integers modulo the Goldilocks prime.
#[verifier::external_body]
fn goldilocks_add(x: u64, y: u64) -> (r: u64)
    ensures
        r == (x as nat + y as nat) % 18446744069414584321,
{
    (Goldilocks::from_u64(x) + Goldilocks::from_u64(y)).as_canonical_u64()
}

} // verus!
