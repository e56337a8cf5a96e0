//! Progression core of an incremental clicker game: an unbounded currency
//! ledger, click statistics, critical-hit resolution, upgrade ownership and
//! the click transaction that ties them together.

pub mod bignat;
pub mod crit;
pub mod currency;
pub mod stats;
pub mod upgrades;
pub mod click;
