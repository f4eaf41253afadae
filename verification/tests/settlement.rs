use fate_fun::settlement::PLATFORM_FEE_DIVISOR;
use fate_fun::{
    claim_winnings, payout_of, Address, ClaimWinnings, ErrorCode, Prediction, Wallet,
    WinningsClaimed,
};

fn id(tag: u8) -> Address {
    Address::new([tag; 32])
}

fn wallet(tag: u8, balance: u64) -> Wallet {
    Wallet { key: id(tag), balance }
}

fn resolved_market(yes_supply: u64, no_supply: u64, outcome: bool) -> Prediction {
    Prediction {
        creator: id(1),
        event_description: String::from("Will the harvest be early?"),
        deadline: 100,
        oracle_source: String::from("almanac"),
        created_at: 10,
        total_volume: 0,
        yes_supply,
        no_supply,
        resolved: true,
        outcome: Some(outcome),
        starting_odds: 5000,
        yes_mint: id(2),
        no_mint: id(3),
        vault: id(4),
    }
}

fn claim(prediction: Prediction, holder: u8, yes: u64, no: u64, pool: u64) -> ClaimWinnings {
    ClaimWinnings {
        prediction,
        prediction_key: id(9),
        user: wallet(holder, 0),
        vault: wallet(4, pool),
        user_yes_tokens: yes,
        user_no_tokens: no,
    }
}

#[test]
fn platform_keeps_a_twentieth() {
    assert_eq!(PLATFORM_FEE_DIVISOR, 20);
    assert_eq!(payout_of(1, 19, 1), 19);
    assert_eq!(payout_of(1, 20, 1), 19);
    assert_eq!(payout_of(1, 21, 1), 20);
    assert_eq!(payout_of(1000, 100, 1000), 95);
    assert_eq!(payout_of(1, 0, 1), 0);
}

#[test]
fn payout_is_in_proportion_and_truncated() {
    assert_eq!(payout_of(250, 9500, 1000), 2256);
    assert_eq!(payout_of(3, 100, 7), 40);
    assert_eq!(payout_of(0, 9500, 1000), 0);
    assert_eq!(payout_of(1, 9500, u64::MAX), 0);
}

#[test]
fn payout_of_the_largest_amounts_does_not_overflow() {
    assert_eq!(payout_of(u64::MAX, u64::MAX, u64::MAX), 17_524_406_870_024_074_035);
    assert_eq!(payout_of(u64::MAX - 1, u64::MAX, u64::MAX), 17_524_406_870_024_074_034);
}

#[test]
fn claim_pays_and_burns() {
    let market = resolved_market(1000, 70, true);
    let mut ctx = claim(market.clone(), 7, 250, 40, 9500);
    ctx.user.balance = 11;
    let event = claim_winnings(&mut ctx).unwrap();
    assert_eq!(
        event,
        WinningsClaimed { prediction: id(9), user: id(7), tokens_burned: 250, payout: 2256 }
    );
    assert_eq!(
        ctx,
        ClaimWinnings {
            prediction: market,
            prediction_key: id(9),
            user: wallet(7, 2267),
            vault: wallet(4, 7244),
            user_yes_tokens: 0,
            user_no_tokens: 40,
        }
    );
}

#[test]
fn claim_on_the_no_side() {
    let mut ctx = claim(resolved_market(70, 1000, false), 7, 40, 250, 9500);
    let event = claim_winnings(&mut ctx).unwrap();
    assert_eq!(event.tokens_burned, 250);
    assert_eq!(event.payout, 2256);
    assert_eq!(ctx.user_no_tokens, 0);
    assert_eq!(ctx.user_yes_tokens, 40);
}

#[test]
fn claim_before_resolution_is_turned_down() {
    let mut open = resolved_market(1000, 0, true);
    open.resolved = false;
    open.outcome = None;
    let mut ctx = claim(open, 7, 250, 0, 9500);
    let before = ctx.clone();
    assert_eq!(claim_winnings(&mut ctx), Err(ErrorCode::MarketNotResolved));
    assert_eq!(ctx, before);
}

#[test]
fn losers_have_nothing_to_claim() {
    let mut ctx = claim(resolved_market(1000, 500, true), 7, 0, 500, 9500);
    let before = ctx.clone();
    assert_eq!(claim_winnings(&mut ctx), Err(ErrorCode::NoWinningTokens));
    assert_eq!(ctx, before);
    assert_eq!(ctx.user_no_tokens, 500);
}

#[test]
fn claim_that_overfills_the_balance_is_turned_down() {
    let mut ctx = claim(resolved_market(1000, 0, true), 7, 1000, 0, 100);
    ctx.user.balance = u64::MAX - 94;
    let before = ctx.clone();
    assert_eq!(claim_winnings(&mut ctx), Err(ErrorCode::Overflow));
    assert_eq!(ctx, before);
    ctx.user.balance = u64::MAX - 95;
    assert!(claim_winnings(&mut ctx).is_ok());
    assert_eq!(ctx.user.balance, u64::MAX);
}

#[test]
fn empty_pool_pays_nothing_and_still_burns() {
    let mut ctx = claim(resolved_market(10, 0, true), 7, 10, 0, 0);
    let event = claim_winnings(&mut ctx).unwrap();
    assert_eq!(event.payout, 0);
    assert_eq!(event.tokens_burned, 10);
    assert_eq!(ctx.user_yes_tokens, 0);
    assert_eq!(ctx.vault.balance, 0);
}

#[test]
fn claims_in_turn_never_overpay() {
    let market = resolved_market(0, 600, false);
    let mut pool: u64 = 1000;
    let available = pool - pool / 20;
    let mut paid: u64 = 0;
    let mut payouts = Vec::new();
    for (holder, tokens) in [(11u8, 100u64), (12, 200), (13, 300)] {
        let mut ctx = claim(market.clone(), holder, 0, tokens, pool);
        let event = claim_winnings(&mut ctx).unwrap();
        assert_eq!(ctx.vault.balance, pool - event.payout);
        pool = ctx.vault.balance;
        paid += event.payout;
        payouts.push(event.payout);
        assert!(paid <= available);
    }
    assert_eq!(payouts, vec![158, 266, 274]);
    assert_eq!(paid, 698);
    assert_eq!(pool, 302);
    assert!(pool >= 1000 / 20);
}

#[test]
fn claims_never_overpay_whatever_the_order() {
    let holdings = [1u64, 2, 3, 5, 8, 13, 21, 34, 55, 89, 144, 233];
    let supply: u64 = holdings.iter().sum();
    for start in [0u64, 1, 19, 20, 21, 999, 1_000_003, u64::MAX] {
        for rotation in 0..holdings.len() {
            let market = resolved_market(supply, 0, true);
            let mut pool = start;
            let mut paid: u128 = 0;
            for step in 0..holdings.len() {
                let tokens = holdings[(step + rotation) % holdings.len()];
                let mut ctx = claim(market.clone(), 7, tokens, 0, pool);
                let event = claim_winnings(&mut ctx).unwrap();
                pool = ctx.vault.balance;
                paid += event.payout as u128;
            }
            assert!(paid <= (start - start / 20) as u128);
            assert!(pool >= start / 20);
            assert_eq!(pool as u128 + paid, start as u128);
        }
    }
}

#[test]
fn holder_of_more_than_was_issued_is_ill_formed() {
    let market = resolved_market(10, 20, true);
    assert!(claim(market.clone(), 7, 10, 20, 0).is_well_formed());
    assert!(!claim(market.clone(), 7, 11, 20, 0).is_well_formed());
    assert!(!claim(market.clone(), 7, 10, 21, 0).is_well_formed());
    let mut elsewhere = claim(market.clone(), 7, 10, 20, 0);
    elsewhere.vault.key = id(5);
    assert!(!elsewhere.is_well_formed());
    let mut broken = market;
    broken.outcome = None;
    assert!(!claim(broken, 7, 0, 0, 0).is_well_formed());
}
