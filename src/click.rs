//! The click transaction: the single write path from a click into the ledger.

use crate::bignat::{decimal_of, BigNat};
use crate::crit::{apply_crit, crit_payout, does_crit};
use crate::currency::Currency;
use crate::stats::{Stats, PRECISION};
use rand::rngs::StdRng;
use vstd::prelude::*;
use vstd::string::StringExecFns;

verus! {

/// One press of the primary button, after the presentation layer has tested
/// it against the target's bounds.
#[derive(Clone, Copy, PartialEq, Eq, Structural, Debug)]
pub struct ClickEvent {
    /// Whether the pointer was on the clickable target.
    pub on_target: bool,
}

/// What one processed click produced, for the presentation layer to show.
pub struct ClickOutcome {
    /// The currency credited.
    pub payout: BigNat,
    /// Whether the click was a critical hit.
    pub crit: bool,
}

/// What a click pays under `stats`, critical or not.
pub open spec fn payout_of(stats: &Stats, crit: bool) -> nat {
    if crit {
        crit_payout(stats.per_click@, stats.crit_mult as nat)
    } else {
        stats.per_click@
    }
}

impl ClickOutcome {
    /// The payout as shown on screen: "+" and its decimal digits.
    pub fn payout_text(&self) -> (r: String)
        ensures
            r@ == seq!['+'] + decimal_of(self.payout@),
    {
        let digits = self.payout.to_decimal();
        proof {
            reveal_strlit("+");
        }
        let mut text = String::from_str("+");
        text.append(digits.as_str());
        text
    }
}

/// Credits the ledger for one click whose critical-hit roll came out `crit`.
pub fn resolve_click(ledger: &mut Currency, stats: &Stats, crit: bool) -> (r: ClickOutcome)
    ensures
        r.crit == crit,
        r.payout@ == payout_of(stats, crit),
        final(ledger).0@ == old(ledger).0@ + r.payout@,
        stats.wf() ==> r.payout@ >= stats.per_click@,
{
    proof {
        if stats.wf() {
            lemma_payout_at_least_per_click(stats, crit);
        }
    }
    let payout = if crit {
        apply_crit(&stats.per_click, stats.crit_mult)
    } else {
        stats.per_click.copy()
    };
    ledger.credit(&payout);
    ClickOutcome { payout, crit }
}

/// Processes one click. A click off the target changes nothing and draws
/// nothing from `rng`. A click on the target rolls one critical hit, credits
/// its payout and returns it.
pub fn process_click(ledger: &mut Currency, stats: &Stats, rng: &mut StdRng, event: ClickEvent)
    -> (r: Option<ClickOutcome>)
    ensures
        !event.on_target ==> r is None && final(ledger).0@ == old(ledger).0@ && *final(rng)
            == *old(rng),
        event.on_target ==> r is Some,
        r matches Some(o) ==> o.payout@ == payout_of(stats, o.crit) && final(ledger).0@ == old(
            ledger,
        ).0@ + o.payout@ && (stats.crit_chance == 0 ==> !o.crit) && (stats.crit_chance
            >= PRECISION ==> o.crit) && (stats.wf() ==> o.payout@ >= stats.per_click@),
{
    if !event.on_target {
        return None;
    }
    let crit = does_crit(rng, stats.crit_chance);
    Some(resolve_click(ledger, stats, crit))
}

/// The balance after a run of valid clicks from `start`, the i-th of which
/// was critical exactly when `crits[i]`.
pub open spec fn balance_after(start: nat, stats: &Stats, crits: Seq<bool>) -> nat
    decreases crits.len(),
{
    if crits.len() == 0 {
        start
    } else {
        balance_after(start, stats, crits.drop_last()) + payout_of(stats, crits.last())
    }
}

/// With a multiplier of at least 1, every click pays at least `per_click`.
pub proof fn lemma_payout_at_least_per_click(stats: &Stats, crit: bool)
    requires
        stats.wf(),
    ensures
        payout_of(stats, crit) >= stats.per_click@,
{
    let b = stats.per_click@;
    let m = stats.crit_mult as nat;
    let p = PRECISION as nat;
    assert(b * m >= b * p) by (nonlinear_arith)
        requires m >= p;
    assert((b * p) / p == b) by (nonlinear_arith)
        requires p > 0;
    assert(b * m / p >= b * p / p) by (nonlinear_arith)
        requires b * m >= b * p, p > 0;
}

/// The balance never falls over a run of valid clicks, and each click adds
/// at least `per_click`.
pub proof fn lemma_balance_grows(start: nat, stats: &Stats, crits: Seq<bool>)
    requires
        stats.wf(),
    ensures
        balance_after(start, stats, crits) >= start + crits.len() * stats.per_click@,
    decreases crits.len(),
{
    if crits.len() > 0 {
        let prefix = crits.drop_last();
        lemma_balance_grows(start, stats, prefix);
        lemma_payout_at_least_per_click(stats, crits.last());
        assert(crits.len() * stats.per_click@ == prefix.len() * stats.per_click@
            + stats.per_click@) by (nonlinear_arith)
            requires crits.len() == prefix.len() + 1;
    }
}

} // verus!
