use fate_fun::pricing::{BASE_LIQUIDITY, BASIS_POINTS, SCALE};
use fate_fun::{calculate_no_price, calculate_yes_price, quote, ErrorCode, Quote};

fn quoted(current: u64, other: u64, amount: u64) -> Quote {
    quote(current, other, BASE_LIQUIDITY, amount).unwrap()
}

#[test]
fn constants_have_their_values() {
    assert_eq!(SCALE, 1_000_000);
    assert_eq!(BASE_LIQUIDITY, 1000);
    assert_eq!(BASIS_POINTS, 10_000);
}

#[test]
fn price_follows_the_side_that_was_bought() {
    assert_eq!(quoted(2000, 0, 1000), Quote { tokens_to_issue: 1200, price_per_token: 833_333 });
    assert_eq!(quoted(0, 2000, 1000), Quote { tokens_to_issue: 6000, price_per_token: 166_666 });
}

#[test]
fn price_is_never_less_than_one() {
    assert_eq!(quoted(0, 249_999_000, 1).price_per_token, 2);
    assert_eq!(quoted(0, 249_999_001, 1).price_per_token, 1);
    assert_eq!(quoted(0, 499_999_000, 1).price_per_token, 1);
    assert_eq!(
        quoted(0, 1_000_000_000, 7),
        Quote { tokens_to_issue: 7_000_000, price_per_token: 1 }
    );
    assert_eq!(quoted(0, u64::MAX, 1).price_per_token, 1);
}

#[test]
fn price_is_never_more_than_the_scale() {
    assert_eq!(quoted(u64::MAX, 0, 1).price_per_token, 999_999);
    assert_eq!(quoted(u64::MAX, u64::MAX, 1).price_per_token, 500_000);
    assert_eq!(quote(3, 0, 0, 9), Ok(Quote { tokens_to_issue: 9, price_per_token: 1_000_000 }));
}

#[test]
fn quote_takes_the_liquidity_it_is_given() {
    assert_eq!(quote(0, 0, 1, 5), Ok(Quote { tokens_to_issue: 5_000_000, price_per_token: 1 }));
    assert_eq!(
        quote(10, 30, 100, 77),
        Ok(Quote { tokens_to_issue: 179, price_per_token: 428_571 })
    );
}

#[test]
fn zero_payment_is_quoted_zero_tokens() {
    assert_eq!(quoted(5, 5, 0), Quote { tokens_to_issue: 0, price_per_token: 500_000 });
}

#[test]
fn quote_fails_when_the_tokens_do_not_fit() {
    let half = u64::MAX / 2;
    assert_eq!(
        quote(0, 0, BASE_LIQUIDITY, half),
        Ok(Quote { tokens_to_issue: u64::MAX - 1, price_per_token: 500_000 })
    );
    assert_eq!(quote(0, 0, BASE_LIQUIDITY, half + 1), Err(ErrorCode::Overflow));
    assert_eq!(quote(0, 1_000_000_000, BASE_LIQUIDITY, u64::MAX), Err(ErrorCode::Overflow));
}

#[test]
fn quote_commits_nothing() {
    let first = quote(123, 456, BASE_LIQUIDITY, 789);
    let second = quote(123, 456, BASE_LIQUIDITY, 789);
    assert_eq!(first, second);
}

#[test]
fn more_supply_never_buys_more_tokens() {
    let others = [0u64, 1, 999, 1000, 123_456, 1_000_000_000, u64::MAX];
    let amounts = [1u64, 7, 1000, 999_999, 1_000_000_007];
    let supplies = [
        0u64,
        1,
        2,
        10,
        499,
        500,
        501,
        1000,
        5000,
        1_000_000,
        1_000_000_000_000,
        u64::MAX - 1,
        u64::MAX,
    ];
    for other in others {
        for amount in amounts {
            let mut last: Option<Quote> = None;
            for supply in supplies {
                let now = quoted(supply, other, amount);
                if let Some(before) = last {
                    assert!(now.tokens_to_issue <= before.tokens_to_issue);
                    assert!(now.price_per_token >= before.price_per_token);
                }
                last = Some(now);
            }
        }
    }
}

#[test]
fn more_supply_never_buys_more_tokens_step_by_step() {
    let mut last = quoted(0, 40, 12_345);
    for supply in 1..3000u64 {
        let now = quoted(supply, 40, 12_345);
        assert!(now.tokens_to_issue <= last.tokens_to_issue);
        last = now;
    }
}

#[test]
fn spot_prices_in_basis_points() {
    assert_eq!(calculate_yes_price(0, 0), 0);
    assert_eq!(calculate_no_price(0, 0), 0);
    assert_eq!(calculate_yes_price(1000, 0), 5000);
    assert_eq!(calculate_no_price(1000, 0), 0);
    assert_eq!(calculate_yes_price(1000, 1000), 3333);
    assert_eq!(calculate_no_price(1000, 1000), 3333);
    assert_eq!(calculate_yes_price(0, 2000), 0);
    assert_eq!(calculate_no_price(0, 2000), 6666);
}

#[test]
fn spot_prices_of_the_largest_supplies() {
    assert_eq!(calculate_yes_price(u64::MAX, u64::MAX), 4999);
    assert_eq!(calculate_no_price(u64::MAX, u64::MAX), 4999);
    assert_eq!(calculate_yes_price(u64::MAX, 0), 9999);
    assert_eq!(calculate_no_price(u64::MAX, 0), 0);
}

#[test]
fn smaller_side_is_never_dearer() {
    let supplies = [0u64, 1, 499, 500, 1000, 2000, 77_777, 1_000_000_000, u64::MAX];
    for (i, smaller) in supplies.iter().enumerate() {
        for larger in &supplies[i..] {
            let cheap = quoted(*smaller, *larger, 1234);
            let dear = quoted(*larger, *smaller, 1234);
            assert!(cheap.price_per_token <= dear.price_per_token);
            assert!(cheap.tokens_to_issue >= dear.tokens_to_issue);
        }
    }
    assert_eq!(quoted(1000, 3000, 1000).price_per_token, 300_000);
    assert_eq!(quoted(3000, 1000, 1000).price_per_token, 700_000);
}
