//! The click statistics: base gain per click, critical-hit chance and
//! critical-hit multiplier.

use crate::bignat::BigNat;
use vstd::prelude::*;

verus! {

/// Fixed-point scale of chances and multipliers: `PRECISION` stands for 1.0.
pub const PRECISION: u32 = 100000;

/// The statistics that decide what one click pays.
pub struct Stats {
    /// Currency granted by a click that is not critical.
    pub per_click: BigNat,
    /// Chance of a critical hit, in units of `1 / PRECISION`.
    pub crit_chance: u32,
    /// Multiplier of a critical hit, in units of `1 / PRECISION`.
    pub crit_mult: u32,
}

impl Stats {
    /// The chance lies in `[0, 1]` and the multiplier is at least 1.
    pub open spec fn wf(&self) -> bool {
        self.crit_chance <= PRECISION && self.crit_mult >= PRECISION
    }

    /// Statistics with the chance clamped to `[0, 1]` and the multiplier
    /// raised to at least 1.
    pub fn new(per_click: BigNat, crit_chance: u32, crit_mult: u32) -> (r: Stats)
        ensures
            r.wf(),
            r.per_click@ == per_click@,
            r.crit_chance == if crit_chance > PRECISION { PRECISION } else { crit_chance },
            r.crit_mult == if crit_mult < PRECISION { PRECISION } else { crit_mult },
    {
        let chance = if crit_chance > PRECISION { PRECISION } else { crit_chance };
        let mult = if crit_mult < PRECISION { PRECISION } else { crit_mult };
        Stats { per_click, crit_chance: chance, crit_mult: mult }
    }

    /// Whether these are the starting statistics: one per click, no crits.
    pub open spec fn is_base(&self) -> bool {
        self.per_click@ == 1 && self.crit_chance == 0 && self.crit_mult == PRECISION
    }
}

impl Default for Stats {
    /// One currency per click, no critical hits, a neutral multiplier.
    fn default() -> (r: Stats)
        ensures
            r.is_base(),
            r.wf(),
    {
        Stats { per_click: BigNat::from_u64(1), crit_chance: 0, crit_mult: PRECISION }
    }
}

} // verus!
