use fate_fun::fees::POOL_PERCENT;
use fate_fun::{split, ErrorCode};

#[test]
fn pool_gets_98_percent() {
    assert_eq!(POOL_PERCENT, 98);
    assert_eq!(split(1000), Ok((980, 20)));
    assert_eq!(split(10_000), Ok((9800, 200)));
}

#[test]
fn what_truncation_cuts_off_goes_to_the_creator() {
    assert_eq!(split(1), Ok((0, 1)));
    assert_eq!(split(49), Ok((48, 1)));
    assert_eq!(split(50), Ok((49, 1)));
    assert_eq!(split(51), Ok((49, 2)));
    assert_eq!(split(99), Ok((97, 2)));
    assert_eq!(split(101), Ok((98, 3)));
}

#[test]
fn zero_payment_is_not_split() {
    assert_eq!(split(0), Err(ErrorCode::InvalidAmount));
}

#[test]
fn largest_payment_is_split_without_overflow() {
    assert_eq!(split(u64::MAX), Ok((18_077_809_192_235_360_582, 368_934_881_474_191_033)));
}

#[test]
fn shares_add_up_to_the_payment() {
    for amount in 1..5000u64 {
        let (pool, operator) = split(amount).unwrap();
        assert_eq!(pool + operator, amount);
        assert!(pool <= amount);
    }
    for amount in [u64::MAX, u64::MAX - 1, u64::MAX / 2, u64::MAX / 98, u64::MAX / 98 + 1] {
        let (pool, operator) = split(amount).unwrap();
        assert_eq!(pool as u128 + operator as u128, amount as u128);
    }
}
