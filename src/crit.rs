//! Critical-hit resolution: whether a click is critical, and what a critical
//! click pays, in exact integer arithmetic.

use crate::bignat::BigNat;
use crate::stats::PRECISION;
use rand::rngs::StdRng;
use rand::Rng;
use vstd::prelude::*;

verus! {

#[verifier::external_type_specification]
#[verifier::external_body]
pub struct ExStdRng(StdRng);

/// What a critical click pays: `base * mult / PRECISION`, rounded down.
pub open spec fn crit_payout(base: nat, mult: nat) -> nat {
    base * mult / (PRECISION as nat)
}

/// The critical-hit payout for `click_value` with the fixed-point multiplier
/// `crit_mult` (`PRECISION` stands for 1.0).
pub fn apply_crit(click_value: &BigNat, crit_mult: u32) -> (r: BigNat)
    ensures
        r@ == crit_payout(click_value@, crit_mult as nat),
{
    let numerator = BigNat::from_u64(crit_mult as u64);
    let denominator = BigNat::from_u64(PRECISION as u64);
    click_value.mul(&numerator).div(&denominator)
}

/// Whether a uniform sample in `[0, PRECISION)` makes a critical hit for the
/// given chance: it does exactly when the sample lies below the chance.
pub fn crit_from_sample(crit_chance: u32, sample: u32) -> (r: bool)
    ensures
        r == (sample < crit_chance),
{
    sample < crit_chance
}

/// Relies on `Rng::gen_range` over `0..bound`: a uniform draw that lies below
/// `bound`; it panics on an empty range.
#[verifier::external_body]
fn draw_below(rng: &mut StdRng, bound: u32) -> (r: u32)
    requires
        bound > 0,
    ensures
        r < bound,
{
    rng.gen_range(0..bound)
}

/// Draws one sample from `rng` and decides whether the click is critical.
/// A chance of 0 never crits; a chance of `PRECISION` (1.0) or more always does.
pub fn does_crit(rng: &mut StdRng, crit_chance: u32) -> (r: bool)
    ensures
        crit_chance == 0 ==> !r,
        crit_chance >= PRECISION ==> r,
{
    let sample = draw_below(rng, PRECISION);
    crit_from_sample(crit_chance, sample)
}

} // verus!
