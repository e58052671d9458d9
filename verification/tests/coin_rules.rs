use gardenfight::coins::{coin_drop_values, collector_in_range, CoinHolder, COIN_SPLIT};

#[test]
fn drops_split_into_full_coins_and_remainder() {
    assert_eq!(coin_drop_values(0), Vec::<i32>::new());
    assert_eq!(coin_drop_values(3), vec![3]);
    assert_eq!(coin_drop_values(5), vec![5]);
    assert_eq!(coin_drop_values(7), vec![5, 2]);
    assert_eq!(coin_drop_values(12), vec![5, 5, 2]);
    assert_eq!(COIN_SPLIT, 5);
}

#[test]
fn boss_purse_drops_two_hundred_coins() {
    let v = coin_drop_values(1000);
    assert_eq!(v.len(), 200);
    assert!(v.iter().all(|c| *c == 5));
}

#[test]
fn drops_conserve_worth() {
    for total in 0..200 {
        let v = coin_drop_values(total);
        assert_eq!(v.iter().sum::<i32>(), total);
        assert!(v.iter().all(|c| 1 <= *c && *c <= 5));
    }
    let big = coin_drop_values(i32::MAX);
    assert_eq!(big.iter().map(|c| *c as i64).sum::<i64>(), i32::MAX as i64);
}

#[test]
fn negative_purse_drops_only_remainder() {
    assert_eq!(coin_drop_values(-7), vec![-2]);
    assert_eq!(coin_drop_values(-5), Vec::<i32>::new());
    assert_eq!(coin_drop_values(-4), vec![-4]);
    assert_eq!(coin_drop_values(i32::MIN), vec![-3]);
}

#[test]
fn holder_collects() {
    let mut h = CoinHolder::default();
    assert_eq!(h.total_value, 0);
    h.collect(5);
    h.collect(2);
    assert_eq!(h.total_value, 7);
}

#[test]
fn coin_follows_when_grounded_with_target() {
    assert!(collector_in_range(true, true));
    assert!(!collector_in_range(true, false));
    assert!(!collector_in_range(false, true));
}
