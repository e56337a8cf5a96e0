//! Arbitrary-precision natural numbers, stored as base 2^32 limbs (least
//! significant first). The arithmetic itself is done by `num_bigint`.

use num_bigint::BigUint;
use vstd::prelude::*;

verus! {

/// The value of a little-endian sequence of base 2^32 limbs.
pub open spec fn limbs_value(s: Seq<u32>) -> nat
    decreases s.len(),
{
    if s.len() == 0 {
        0
    } else {
        s[0] as nat + 0x1_0000_0000 * limbs_value(s.subrange(1, s.len() as int))
    }
}

/// The character of a decimal digit.
pub open spec fn digit_char(d: nat) -> char {
    if d == 0 { '0' }
    else if d == 1 { '1' }
    else if d == 2 { '2' }
    else if d == 3 { '3' }
    else if d == 4 { '4' }
    else if d == 5 { '5' }
    else if d == 6 { '6' }
    else if d == 7 { '7' }
    else if d == 8 { '8' }
    else { '9' }
}

/// The decimal representation of `n`: no sign, no leading zeros, "0" for zero.
pub open spec fn decimal_of(n: nat) -> Seq<char>
    decreases n,
{
    if n < 10 {
        seq![digit_char(n)]
    } else {
        decimal_of(n / 10).push(digit_char(n % 10))
    }
}

/// A natural number of any size.
pub struct BigNat {
    /// Base 2^32 limbs, least significant first; trailing zero limbs are allowed.
    pub limbs: Vec<u32>,
}

impl View for BigNat {
    type V = nat;

    open spec fn view(&self) -> nat {
        limbs_value(self.limbs@)
    }
}

/// Relies on `BigUint`'s `+` (through `from_slice` / `to_u32_digits`): the exact sum.
#[verifier::external_body]
fn big_add(a: &BigNat, b: &BigNat) -> (r: BigNat)
    ensures
        r@ == a@ + b@,
{
    BigNat { limbs: (BigUint::from_slice(&a.limbs) + BigUint::from_slice(&b.limbs)).to_u32_digits() }
}

/// Relies on `BigUint`'s `-`, which panics when the result would be negative.
#[verifier::external_body]
fn big_sub(a: &BigNat, b: &BigNat) -> (r: BigNat)
    requires
        b@ <= a@,
    ensures
        r@ == a@ - b@,
{
    BigNat { limbs: (BigUint::from_slice(&a.limbs) - BigUint::from_slice(&b.limbs)).to_u32_digits() }
}

/// Relies on `BigUint`'s `*`: the exact product.
#[verifier::external_body]
fn big_mul(a: &BigNat, b: &BigNat) -> (r: BigNat)
    ensures
        r@ == a@ * b@,
{
    BigNat { limbs: (BigUint::from_slice(&a.limbs) * BigUint::from_slice(&b.limbs)).to_u32_digits() }
}

/// Relies on `BigUint`'s `/`: truncating division, which panics on a zero divisor.
#[verifier::external_body]
fn big_div(a: &BigNat, b: &BigNat) -> (r: BigNat)
    requires
        b@ > 0,
    ensures
        r@ == a@ / b@,
{
    BigNat { limbs: (BigUint::from_slice(&a.limbs) / BigUint::from_slice(&b.limbs)).to_u32_digits() }
}

/// Relies on `BigUint`'s `<`: numeric comparison.
#[verifier::external_body]
fn big_lt(a: &BigNat, b: &BigNat) -> (r: bool)
    ensures
        r == (a@ < b@),
{
    BigUint::from_slice(&a.limbs) < BigUint::from_slice(&b.limbs)
}

/// Relies on `BigUint`'s `Display`, which writes `to_str_radix(10)`: the
/// plain decimal digits, "0" for zero.
#[verifier::external_body]
fn big_to_decimal(a: &BigNat) -> (r: String)
    ensures
        r@ == decimal_of(a@),
{
    BigUint::from_slice(&a.limbs).to_string()
}

impl BigNat {
    /// Zero.
    pub fn zero() -> (r: BigNat)
        ensures
            r@ == 0,
    {
        let r = BigNat { limbs: Vec::new() };
        assert(r.limbs@.len() == 0);
        r
    }

    /// The value of a machine integer.
    pub fn from_u64(n: u64) -> (r: BigNat)
        ensures
            r@ == n as nat,
    {
        let lo: u32 = (n % 0x1_0000_0000) as u32;
        let hi: u32 = (n / 0x1_0000_0000) as u32;
        let mut limbs: Vec<u32> = Vec::new();
        limbs.push(lo);
        limbs.push(hi);
        let r = BigNat { limbs };
        let ghost top = r.limbs@.subrange(1, 2);
        assert(top.subrange(1, 1).len() == 0);
        assert(limbs_value(top.subrange(1, 1)) == 0);
        assert(top[0] == hi);
        assert(limbs_value(top) == hi as nat);
        assert(n as nat == lo as nat + 0x1_0000_0000 * (hi as nat));
        r
    }

    /// A number with the same value.
    pub fn copy(&self) -> (r: BigNat)
        ensures
            r@ == self@,
    {
        let limbs = self.limbs.clone();
        assert(limbs@ =~= self.limbs@);
        BigNat { limbs }
    }

    /// `self + other`.
    pub fn add(&self, other: &BigNat) -> (r: BigNat)
        ensures
            r@ == self@ + other@,
    {
        big_add(self, other)
    }

    /// `self - other`; the caller makes sure the difference is not negative.
    pub fn sub(&self, other: &BigNat) -> (r: BigNat)
        requires
            other@ <= self@,
        ensures
            r@ == self@ - other@,
    {
        big_sub(self, other)
    }

    /// `self * other`.
    pub fn mul(&self, other: &BigNat) -> (r: BigNat)
        ensures
            r@ == self@ * other@,
    {
        big_mul(self, other)
    }

    /// `self / other`, rounded toward zero.
    pub fn div(&self, other: &BigNat) -> (r: BigNat)
        requires
            other@ > 0,
        ensures
            r@ == self@ / other@,
    {
        big_div(self, other)
    }

    /// Whether `self` is strictly less than `other`.
    pub fn lt(&self, other: &BigNat) -> (r: bool)
        ensures
            r == (self@ < other@),
    {
        big_lt(self, other)
    }

    /// The exact decimal representation, with every digit.
    pub fn to_decimal(&self) -> (r: String)
        ensures
            r@ == decimal_of(self@),
    {
        big_to_decimal(self)
    }
}

} // verus!
