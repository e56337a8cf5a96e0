//! The upgrade catalog and the record of what the player owns.

use crate::bignat::BigNat;
use crate::currency::Currency;
use crate::stats::{Stats, PRECISION};
use vstd::prelude::*;
use vstd::string::StringExecFns;

verus! {

/// A kind of upgrade that can be bought.
#[derive(Clone, Copy, PartialEq, Eq, Structural, Debug)]
pub enum Upgrade {
    Chicken,
    HenHouse,
}

/// The label shown for each kind.
pub open spec fn upgrade_name(kind: Upgrade) -> Seq<char> {
    match kind {
        Upgrade::Chicken => seq!['C', 'h', 'i', 'c', 'k', 'e', 'n'],
        Upgrade::HenHouse => seq!['H', 'e', 'n', ' ', 'H', 'o', 'u', 's', 'e'],
    }
}

impl Upgrade {
    /// The human-readable label of this kind.
    pub fn display_name(&self) -> (r: String)
        ensures
            r@ == upgrade_name(*self),
    {
        match self {
            Upgrade::Chicken => {
                proof {
                    reveal_strlit("Chicken");
                }
                String::from_str("Chicken")
            },
            Upgrade::HenHouse => {
                proof {
                    reveal_strlit("Hen House");
                }
                String::from_str("Hen House")
            },
        }
    }
}

/// Why a purchase was refused.
#[derive(Clone, Copy, PartialEq, Eq, Structural, Debug)]
pub enum PurchaseError {
    /// The balance is below the cost.
    InsufficientFunds,
}

/// Whether no kind appears in two entries.
pub open spec fn unique_kinds(s: Seq<(Upgrade, u32)>) -> bool {
    forall|i: int, j: int|
        0 <= i < s.len() && 0 <= j < s.len() && i != j ==> #[trigger] s[i].0 != #[trigger] s[j].0
}

/// Whether some entry is for `kind`.
pub open spec fn has_entry(s: Seq<(Upgrade, u32)>, kind: Upgrade) -> bool {
    exists|i: int| 0 <= i < s.len() && #[trigger] s[i].0 == kind
}

/// The position of an entry for `kind`, where there is one.
pub open spec fn entry_of(s: Seq<(Upgrade, u32)>, kind: Upgrade) -> int
    recommends
        has_entry(s, kind),
{
    choose|i: int| 0 <= i < s.len() && #[trigger] s[i].0 == kind
}

/// How many of `kind` the entries record: 0 without an entry.
pub open spec fn count_in(s: Seq<(Upgrade, u32)>, kind: Upgrade) -> nat {
    if has_entry(s, kind) {
        s[entry_of(s, kind)].1 as nat
    } else {
        0
    }
}

/// The entries after one more `kind` was acquired: its entry's count goes up
/// by one, or a new entry with count 1 is appended.
pub open spec fn with_one_more(s: Seq<(Upgrade, u32)>, kind: Upgrade) -> Seq<(Upgrade, u32)> {
    if has_entry(s, kind) {
        let i = entry_of(s, kind);
        s.update(i, (kind, (s[i].1 + 1) as u32))
    } else {
        s.push((kind, 1u32))
    }
}

/// Adding one `kind` to unique entries keeps them unique, raises the count of
/// `kind` by one and leaves every other count as it was.
pub proof fn lemma_with_one_more(s: Seq<(Upgrade, u32)>, kind: Upgrade)
    requires
        unique_kinds(s),
        count_in(s, kind) < u32::MAX,
    ensures
        unique_kinds(with_one_more(s, kind)),
        has_entry(with_one_more(s, kind), kind),
        count_in(with_one_more(s, kind), kind) == count_in(s, kind) + 1,
        forall|k: Upgrade| k != kind ==> count_in(with_one_more(s, kind), k) == count_in(s, k),
        with_one_more(s, kind).len() == s.len() + if has_entry(s, kind) { 0int } else { 1int },
{
    let t = with_one_more(s, kind);
    if has_entry(s, kind) {
        let i = entry_of(s, kind);
        assert(t[i].0 == kind);
        assert forall|k: Upgrade| k != kind implies count_in(t, k) == count_in(s, k) by {
            if has_entry(s, k) {
                let j = entry_of(s, k);
                assert(t[j].0 == k);
                let tj = entry_of(t, k);
                assert(tj == j);
            } else {
                if has_entry(t, k) {
                    let tj = entry_of(t, k);
                    assert(s[tj].0 == k);
                }
            }
        }
        assert(entry_of(t, kind) == i);
    } else {
        let n = s.len() as int;
        assert(t[n].0 == kind);
        assert forall|k: Upgrade| k != kind implies count_in(t, k) == count_in(s, k) by {
            if has_entry(s, k) {
                let j = entry_of(s, k);
                assert(t[j].0 == k);
                let tj = entry_of(t, k);
                assert(tj == j);
            } else {
                if has_entry(t, k) {
                    let tj = entry_of(t, k);
                    assert(s[tj].0 == k);
                }
            }
        }
        assert(entry_of(t, kind) == n);
    }
}

/// The statistics that a given ownership yields. No kind of the current
/// catalog changes click statistics (a chicken adds eggs per second, which is
/// not a click statistic), so every ownership yields the starting statistics.
pub fn recompute(ownership: &Upgrades) -> (r: Stats)
    ensures
        r.wf(),
        r.is_base(),
{
    Stats { per_click: BigNat::from_u64(1), crit_chance: 0, crit_mult: PRECISION }
}

/// The kinds the player owns, one entry per kind, with how many of each.
pub struct Upgrades {
    pub owned: Vec<(Upgrade, u32)>,
}

impl Upgrades {
    /// No kind appears twice.
    pub open spec fn wf(&self) -> bool {
        unique_kinds(self.owned@)
    }

    /// How many of `kind` are owned.
    pub open spec fn count_of(&self, kind: Upgrade) -> nat {
        count_in(self.owned@, kind)
    }

    /// Nothing owned.
    pub fn new() -> (r: Upgrades)
        ensures
            r.wf(),
            r.owned@.len() == 0,
            forall|k: Upgrade| r.count_of(k) == 0,
    {
        Upgrades { owned: Vec::new() }
    }

    /// Where the entry for `kind` stands, if there is one.
    fn find(&self, kind: Upgrade) -> (r: Option<usize>)
        requires
            self.wf(),
        ensures
            r is None <==> !has_entry(self.owned@, kind),
            r matches Some(i) ==> i == entry_of(self.owned@, kind) && i < self.owned@.len(),
    {
        let mut i: usize = 0;
        while i < self.owned.len()
            invariant
                i <= self.owned@.len(),
                self.wf(),
                forall|j: int| 0 <= j < i ==> #[trigger] self.owned@[j].0 != kind,
            decreases self.owned@.len() - i,
        {
            if self.owned[i].0 == kind {
                assert(has_entry(self.owned@, kind));
                let ghost e = entry_of(self.owned@, kind);
                assert(0 <= e < self.owned@.len() && self.owned@[e].0 == kind);
                assert(self.owned@[i as int].0 == kind);
                proof {
                    if e != i as int {
                        assert(self.owned@[e].0 != self.owned@[i as int].0);
                    }
                }
                return Some(i);
            }
            i = i + 1;
        }
        None
    }

    /// How many of `kind` are owned: 0 if it has no entry yet.
    pub fn owned_count(&self, kind: Upgrade) -> (r: u32)
        requires
            self.wf(),
        ensures
            r as nat == self.count_of(kind),
    {
        match self.find(kind) {
            Some(i) => self.owned[i].1,
            None => 0,
        }
    }

    /// Records one more `kind`: its entry's count goes up by one, or a new
    /// entry with count 1 is appended.
    pub fn add_one(&mut self, kind: Upgrade)
        requires
            old(self).wf(),
            old(self).count_of(kind) < u32::MAX,
        ensures
            final(self).owned@ == with_one_more(old(self).owned@, kind),
            final(self).wf(),
            final(self).count_of(kind) == old(self).count_of(kind) + 1,
            forall|k: Upgrade| k != kind ==> final(self).count_of(k) == old(self).count_of(k),
    {
        proof {
            lemma_with_one_more(self.owned@, kind);
        }
        match self.find(kind) {
            Some(i) => {
                let n = self.owned[i].1;
                self.owned.set(i, (kind, n + 1));
            },
            None => {
                self.owned.push((kind, 1));
            },
        }
        assert(self.owned@ =~= with_one_more(old(self).owned@, kind));
    }

    /// Buys one `kind` for `cost`. With a balance below the cost nothing
    /// changes and `InsufficientFunds` is returned; otherwise the cost is
    /// debited, one more `kind` is recorded and the statistics are recomputed.
    pub fn purchase(&mut self, ledger: &mut Currency, stats: &mut Stats, kind: Upgrade, cost: &BigNat)
        -> (r: Result<(), PurchaseError>)
        requires
            old(self).wf(),
            old(self).count_of(kind) < u32::MAX,
        ensures
            r is Err <==> old(ledger).0@ < cost@,
            r is Err ==> r == Err::<(), PurchaseError>(PurchaseError::InsufficientFunds)
                && final(self).owned@ == old(self).owned@
                && final(ledger).0@ == old(ledger).0@
                && *final(stats) == *old(stats),
            r is Ok ==> final(self).owned@ == with_one_more(old(self).owned@, kind)
                && final(ledger).0@ == old(ledger).0@ - cost@
                && final(stats).wf() && final(stats).is_base(),
            final(self).wf(),
    {
        if ledger.0.lt(cost) {
            return Err(PurchaseError::InsufficientFunds);
        }
        ledger.debit(cost);
        self.add_one(kind);
        *stats = recompute(self);
        Ok(())
    }
}

/// Buying the same kind twice, starting without an entry for it, leaves one
/// entry for it with a count of 2 and adds exactly one entry in all.
pub proof fn lemma_ownership_unique(s: Seq<(Upgrade, u32)>, kind: Upgrade)
    requires
        unique_kinds(s),
        !has_entry(s, kind),
    ensures
        unique_kinds(with_one_more(with_one_more(s, kind), kind)),
        count_in(with_one_more(with_one_more(s, kind), kind), kind) == 2,
        with_one_more(with_one_more(s, kind), kind).len() == s.len() + 1,
{
    lemma_with_one_more(s, kind);
    let t = with_one_more(s, kind);
    lemma_with_one_more(t, kind);
}

} // verus!
