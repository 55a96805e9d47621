use ebas_defi::rates::{default_rates, resolve_rate, table_lookup};
use ebas_defi::scoring::calculate_credit_score;
use ebas_defi::types::{copy_identity, same_identity};

const U: i128 = 10_000_000;

#[test]
fn score_tiers_exact() {
    assert_eq!(calculate_credit_score(0, 0, 0), 350);
    assert_eq!(calculate_credit_score(0, 1000 * U, 0), 350);
    assert_eq!(calculate_credit_score(0, 1000 * U + 1, 0), 400);
    assert_eq!(calculate_credit_score(0, 2000 * U + 1, 0), 450);
    assert_eq!(calculate_credit_score(0, 3000 * U + 1, 0), 500);
    assert_eq!(calculate_credit_score(25000 * U + 1, 0, 0), 400);
    assert_eq!(calculate_credit_score(50000 * U + 1, 0, 0), 450);
    assert_eq!(calculate_credit_score(60000 * U, 5000 * U, 3), 675);
    assert_eq!(calculate_credit_score(15000 * U, 1250 * U, 1), 425);
}

#[test]
fn score_is_capped() {
    assert_eq!(calculate_credit_score(60000 * U, 5000 * U, 10), 850);
    assert_eq!(calculate_credit_score(i128::MAX, i128::MAX, u32::MAX), 850);
    assert_eq!(calculate_credit_score(-1, i128::MIN, 0), 350);
}

#[test]
fn score_grows_with_platforms() {
    let mut prev = 0u32;
    for n in 0..25u32 {
        let s = calculate_credit_score(0, 0, n);
        assert!(s >= prev && (300..=850).contains(&s));
        prev = s;
    }
}

#[test]
fn table_lookup_last_entry_wins() {
    let t = vec![(1u32, 10u32), (2, 20), (1, 30)];
    assert_eq!(table_lookup(&t, 1), Some(30));
    assert_eq!(table_lookup(&t, 2), Some(20));
    assert_eq!(table_lookup(&t, 3), None);
}

#[test]
fn rates_never_rise_with_score() {
    let t = default_rates();
    assert_eq!(t.len(), 6);
    let mut prev = u32::MAX;
    for s in 0..900u32 {
        let r = resolve_rate(&t, s);
        assert!(r <= prev);
        prev = r;
    }
}

#[test]
fn identities_copy_and_compare() {
    let a = b"GABC".to_vec();
    let c = copy_identity(&a);
    assert_eq!(c, a);
    assert!(same_identity(&a, &c));
    assert!(!same_identity(&a, &b"GABD".to_vec()));
    assert!(!same_identity(&a, &b"GAB".to_vec()));
}
