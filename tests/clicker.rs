use egg_clicker::bignat::BigNat;
use egg_clicker::click::{process_click, resolve_click, ClickEvent};
use egg_clicker::crit::{apply_crit, crit_from_sample, does_crit};
use egg_clicker::currency::Currency;
use egg_clicker::stats::{Stats, PRECISION};
use egg_clicker::upgrades::{recompute, PurchaseError, Upgrade, Upgrades};
use num_bigint::BigUint;
use rand::rngs::StdRng;
use rand::{Rng, SeedableRng};

fn num(n: u64) -> BigNat {
    BigNat::from_u64(n)
}

fn dec(n: &BigNat) -> String {
    n.to_decimal()
}

fn scaled(mult: f32) -> u32 {
    (PRECISION as f32 * mult).round() as u32
}

fn hit() -> ClickEvent {
    ClickEvent { on_target: true }
}

fn miss() -> ClickEvent {
    ClickEvent { on_target: false }
}

#[test]
fn bignat_arithmetic_is_exact() {
    let a = num(u64::MAX);
    let b = num(1);
    assert_eq!(dec(&a.add(&b)), "18446744073709551616");
    assert_eq!(dec(&a.mul(&a)), "340282366920938463426481119284349108225");
    assert_eq!(dec(&a.sub(&b)), "18446744073709551614");
    assert_eq!(dec(&num(17).div(&num(5))), "3");
    assert!(b.lt(&a));
    assert!(!a.lt(&b));
    assert!(!a.lt(&a));
    assert_eq!(dec(&BigNat::zero()), "0");
    assert_eq!(dec(&num(0)), "0");
}

#[test]
fn ledger_starts_at_zero_and_credits() {
    let mut ledger = Currency::default();
    assert_eq!(ledger.format(), "0");
    ledger.credit(&num(41));
    ledger.credit(&num(1));
    assert_eq!(ledger.format(), "42");
    assert_eq!(dec(&ledger.balance()), "42");
    ledger.debit(&num(40));
    assert_eq!(ledger.format(), "2");
}

#[test]
fn ledger_formats_huge_balances_in_full() {
    let big = BigUint::parse_bytes(b"123456789012345678901234567890123456789", 10).unwrap();
    let mut ledger = Currency::default();
    ledger.credit(&BigNat { limbs: big.to_u32_digits() });
    ledger.credit(&num(1));
    assert_eq!(ledger.format(), "123456789012345678901234567890123456790");
}

#[test]
fn stats_default_and_clamping() {
    let s = Stats::default();
    assert_eq!(dec(&s.per_click), "1");
    assert_eq!(s.crit_chance, 0);
    assert_eq!(s.crit_mult, PRECISION);
    let c = Stats::new(num(3), 250_000, 50_000);
    assert_eq!(c.crit_chance, PRECISION);
    assert_eq!(c.crit_mult, PRECISION);
    let k = Stats::new(num(3), 40_000, 175_000);
    assert_eq!(k.crit_chance, 40_000);
    assert_eq!(k.crit_mult, 175_000);
}

#[test]
fn crit_never_at_zero_chance() {
    let mut rng = StdRng::seed_from_u64(1);
    for _ in 0..10_000 {
        assert!(!does_crit(&mut rng, 0));
    }
}

#[test]
fn crit_always_at_full_chance() {
    let mut rng = StdRng::seed_from_u64(2);
    for _ in 0..10_000 {
        assert!(does_crit(&mut rng, PRECISION));
        assert!(does_crit(&mut rng, u32::MAX));
    }
}

#[test]
fn crit_rate_near_half_at_half_chance() {
    let mut rng = StdRng::seed_from_u64(3);
    let trials = 100_000;
    let mut hits = 0u32;
    for _ in 0..trials {
        if does_crit(&mut rng, scaled(0.5)) {
            hits += 1;
        }
    }
    let rate = hits as f64 / trials as f64;
    assert!((rate - 0.5).abs() < 0.01, "rate {}", rate);
}

#[test]
fn crit_from_sample_compares_strictly() {
    assert!(crit_from_sample(50_000, 49_999));
    assert!(!crit_from_sample(50_000, 50_000));
    assert!(!crit_from_sample(0, 0));
}

#[test]
fn apply_crit_exact_values() {
    assert_eq!(dec(&apply_crit(&num(1000), scaled(1.5))), "1500");
    assert_eq!(dec(&apply_crit(&num(7), scaled(2.0))), "14");
    assert_eq!(dec(&apply_crit(&num(7), scaled(1.0))), "7");
    assert_eq!(dec(&apply_crit(&num(3), 150_000)), "4");
}

#[test]
fn apply_crit_keeps_every_digit_of_huge_bases() {
    let base = BigUint::from(10u32).pow(30);
    let base = BigNat { limbs: base.to_u32_digits() };
    assert_eq!(scaled(1.33333), 133_333);
    assert_eq!(dec(&apply_crit(&base, scaled(1.33333))), "1333330000000000000000000000000");
}

#[test]
fn miss_changes_nothing_and_draws_nothing() {
    let mut ledger = Currency::default();
    ledger.credit(&num(5));
    let stats = Stats::new(num(1), PRECISION / 2, 200_000);
    let mut rng = StdRng::seed_from_u64(7);
    let mut twin = StdRng::seed_from_u64(7);
    for _ in 0..100 {
        assert!(process_click(&mut ledger, &stats, &mut rng, miss()).is_none());
    }
    assert_eq!(ledger.format(), "5");
    for _ in 0..10 {
        assert_eq!(rng.gen::<u64>(), twin.gen::<u64>());
    }
}

#[test]
fn valid_clicks_grow_balance_by_at_least_per_click() {
    let mut ledger = Currency::default();
    let stats = Stats::new(num(10), PRECISION / 2, 150_000);
    let mut rng = StdRng::seed_from_u64(11);
    let mut total = 0u64;
    for _ in 0..200 {
        let before = ledger.balance();
        let out = process_click(&mut ledger, &stats, &mut rng, hit()).unwrap();
        let expected = if out.crit { "15" } else { "10" };
        assert_eq!(dec(&out.payout), expected);
        assert_eq!(dec(&before.add(&out.payout)), ledger.format());
        total += if out.crit { 15 } else { 10 };
    }
    assert!(total >= 2000);
    assert_eq!(ledger.format(), total.to_string());
}

#[test]
fn resolve_click_pays_per_click_or_crit() {
    let mut ledger = Currency::default();
    let stats = Stats::new(num(4), 0, 250_000);
    let plain = resolve_click(&mut ledger, &stats, false);
    assert_eq!(dec(&plain.payout), "4");
    assert!(!plain.crit);
    let crit = resolve_click(&mut ledger, &stats, true);
    assert_eq!(dec(&crit.payout), "10");
    assert!(crit.crit);
    assert_eq!(ledger.format(), "14");
}

#[test]
fn end_to_end_scenario() {
    let mut ledger = Currency::default();
    let mut rng = StdRng::seed_from_u64(42);
    let stats = Stats::new(num(1), 0, PRECISION);
    let first = process_click(&mut ledger, &stats, &mut rng, hit()).unwrap();
    assert_eq!(ledger.format(), "1");
    assert_eq!(first.payout_text(), "+1");
    assert!(!first.crit);
    let stats = Stats::new(num(1), scaled(1.0), scaled(2.0));
    let second = process_click(&mut ledger, &stats, &mut rng, hit()).unwrap();
    assert_eq!(ledger.format(), "3");
    assert_eq!(second.payout_text(), "+2");
    assert!(second.crit);
}

#[test]
fn upgrade_names() {
    assert_eq!(Upgrade::Chicken.display_name(), "Chicken");
    assert_eq!(Upgrade::HenHouse.display_name(), "Hen House");
}

#[test]
fn owned_count_is_zero_without_entry() {
    let u = Upgrades::new();
    assert_eq!(u.owned_count(Upgrade::Chicken), 0);
    assert_eq!(u.owned_count(Upgrade::HenHouse), 0);
}

#[test]
fn buying_same_kind_twice_keeps_one_entry() {
    let mut u = Upgrades::new();
    let mut ledger = Currency::default();
    ledger.credit(&num(100));
    let mut stats = Stats::default();
    assert_eq!(u.purchase(&mut ledger, &mut stats, Upgrade::Chicken, &num(10)), Ok(()));
    assert_eq!(u.purchase(&mut ledger, &mut stats, Upgrade::Chicken, &num(10)), Ok(()));
    assert_eq!(u.owned.len(), 1);
    assert_eq!(u.owned_count(Upgrade::Chicken), 2);
    assert_eq!(u.owned_count(Upgrade::HenHouse), 0);
    assert_eq!(ledger.format(), "80");
    assert_eq!(u.purchase(&mut ledger, &mut stats, Upgrade::HenHouse, &num(80)), Ok(()));
    assert_eq!(u.owned.len(), 2);
    assert_eq!(u.owned_count(Upgrade::HenHouse), 1);
    assert_eq!(ledger.format(), "0");
}

#[test]
fn purchase_with_insufficient_funds_changes_nothing() {
    let mut u = Upgrades::new();
    let mut ledger = Currency::default();
    ledger.credit(&num(9));
    let mut stats = Stats::new(num(5), 0, PRECISION);
    assert_eq!(
        u.purchase(&mut ledger, &mut stats, Upgrade::Chicken, &num(10)),
        Err(PurchaseError::InsufficientFunds)
    );
    assert_eq!(ledger.format(), "9");
    assert_eq!(u.owned.len(), 0);
    assert_eq!(dec(&stats.per_click), "5");
}

#[test]
fn add_one_and_recompute() {
    let mut u = Upgrades::new();
    u.add_one(Upgrade::HenHouse);
    u.add_one(Upgrade::Chicken);
    u.add_one(Upgrade::HenHouse);
    assert_eq!(u.owned, vec![(Upgrade::HenHouse, 2), (Upgrade::Chicken, 1)]);
    let s = recompute(&u);
    assert_eq!(dec(&s.per_click), "1");
    assert_eq!(s.crit_chance, 0);
    assert_eq!(s.crit_mult, PRECISION);
}
