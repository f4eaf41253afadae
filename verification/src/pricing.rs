use vstd::prelude::*;
use crate::arith::{lemma_div_at_most, lemma_fraction_order};
use crate::errors::ErrorCode;

verus! {

/// Prices are fixed-point numbers with six decimal places.
pub const SCALE: u64 = 1_000_000;

/// The virtual liquidity that every market is quoted with. It keeps the total
/// supply positive and damps the price while real supply is small.
pub const BASE_LIQUIDITY: u64 = 1000;

/// A probability of one, in basis points.
pub const BASIS_POINTS: u64 = 10_000;

/// What a payment buys: the tokens to issue and the price that was charged
/// for each of them, scaled by `SCALE`.
#[derive(Clone, Copy, Debug, PartialEq, Eq, Structural)]
pub struct Quote {
    pub tokens_to_issue: u64,
    pub price_per_token: u64,
}

/// The price of one token of a side before the floor of one is applied: the
/// side's supply plus half the virtual liquidity, as a fraction of the total
/// supply, scaled and truncated.
pub open spec fn curve_price(current: nat, other: nat, base: nat) -> nat {
    ((current + base / 2) * SCALE / ((current + other + base) as int)) as nat
}

/// The price charged for one token of a side: the curve's price, but never
/// less than one.
pub open spec fn price_per_token(current: nat, other: nat, base: nat) -> nat {
    if curve_price(current, other, base) < 1 {
        1
    } else {
        curve_price(current, other, base)
    }
}

/// The tokens that `amount` buys on a side: the scaled amount divided by the
/// price, truncated.
pub open spec fn tokens_to_issue(current: nat, other: nat, base: nat, amount: nat) -> nat {
    (amount * SCALE / (price_per_token(current, other, base) as int)) as nat
}

/// The share of all supply, virtual liquidity included, that one side holds,
/// in basis points and truncated.
pub open spec fn spot_price(side: nat, other: nat) -> nat {
    (side * BASIS_POINTS / (side + other + BASE_LIQUIDITY)) as nat
}

/// The price is at least one and at most `SCALE`.
pub proof fn lemma_price_bounds(current: nat, other: nat, base: nat)
    requires
        current + other + base > 0,
    ensures
        1 <= price_per_token(current, other, base) <= SCALE,
{
    let total = (current + other + base) as int;
    let weighted = (current + base / 2) * SCALE;
    assert(weighted <= SCALE * total);
    lemma_div_at_most(weighted, total, SCALE as int);
}

/// The curve's price of a side never falls when that side's supply grows
/// while the other side's supply stays as it is.
pub proof fn lemma_price_rises_with_supply(lower: nat, higher: nat, other: nat, base: nat)
    requires
        lower <= higher,
        lower + other + base > 0,
    ensures
        price_per_token(lower, other, base) <= price_per_token(higher, other, base),
{
    let half = (base / 2) as int;
    let rest = (other + base) as int;
    let a1 = (lower + half) * SCALE;
    let a2 = (higher + half) * SCALE;
    let d1 = lower + rest;
    let d2 = higher + rest;
    assert((lower + half) * d2 <= (higher + half) * d1) by (nonlinear_arith)
        requires
            0 <= lower <= higher,
            0 <= half <= rest,
            d1 == lower + rest,
            d2 == higher + rest,
    ;
    assert(a1 * d2 <= a2 * d1) by (nonlinear_arith)
        requires
            (lower + half) * d2 <= (higher + half) * d1,
            a1 == (lower + half) * 1_000_000,
            a2 == (higher + half) * 1_000_000,
    ;
    lemma_fraction_order(a1, d1, a2, d2);
}

/// More demand never buys more: when the supply of a side grows while the
/// other side's supply and the payment stay as they are, the payment buys no
/// more tokens of that side than it did before.
pub proof fn lemma_tokens_fall_with_supply(
    lower: nat,
    higher: nat,
    other: nat,
    base: nat,
    amount: nat,
)
    requires
        lower <= higher,
        lower + other + base > 0,
    ensures
        tokens_to_issue(higher, other, base, amount) <= tokens_to_issue(
            lower,
            other,
            base,
            amount,
        ),
{
    lemma_price_rises_with_supply(lower, higher, other, base);
    lemma_price_bounds(lower, other, base);
    vstd::arithmetic::div_mod::lemma_div_is_ordered_by_denominator(
        amount * SCALE,
        price_per_token(lower, other, base) as int,
        price_per_token(higher, other, base) as int,
    );
}

/// The side with more supply is never the cheaper one: a payment buys at
/// least as many tokens of the smaller side as of the larger.
pub proof fn lemma_smaller_side_buys_more(smaller: nat, larger: nat, base: nat, amount: nat)
    requires
        smaller <= larger,
        smaller + larger + base > 0,
    ensures
        price_per_token(smaller, larger, base) <= price_per_token(larger, smaller, base),
        tokens_to_issue(larger, smaller, base, amount) <= tokens_to_issue(
            smaller,
            larger,
            base,
            amount,
        ),
{
    let total = (smaller + larger + base) as int;
    vstd::arithmetic::div_mod::lemma_div_is_ordered(
        (smaller + base / 2) * SCALE,
        (larger + base / 2) * SCALE,
        total,
    );
    lemma_price_bounds(smaller, larger, base);
    vstd::arithmetic::div_mod::lemma_div_is_ordered_by_denominator(
        amount * SCALE,
        price_per_token(smaller, larger, base) as int,
        price_per_token(larger, smaller, base) as int,
    );
}

/// Quotes a payment of `incoming_amount` on the side whose supply is
/// `current_side_supply`. Nothing is committed: the same arguments give the
/// same quote however often it is asked for.
///
/// Fails with `Overflow` exactly when the tokens to issue do not fit in 64
/// bits.
pub fn quote(
    current_side_supply: u64,
    other_side_supply: u64,
    base_liquidity: u64,
    incoming_amount: u64,
) -> (r: Result<Quote, ErrorCode>)
    requires
        current_side_supply + other_side_supply + base_liquidity > 0,
    ensures
        match r {
            Ok(q) => {
                &&& q.price_per_token == price_per_token(
                    current_side_supply as nat,
                    other_side_supply as nat,
                    base_liquidity as nat,
                )
                &&& q.tokens_to_issue == tokens_to_issue(
                    current_side_supply as nat,
                    other_side_supply as nat,
                    base_liquidity as nat,
                    incoming_amount as nat,
                )
            },
            Err(e) => {
                &&& e == ErrorCode::Overflow
                &&& tokens_to_issue(
                    current_side_supply as nat,
                    other_side_supply as nat,
                    base_liquidity as nat,
                    incoming_amount as nat,
                ) > u64::MAX
            },
        },
{
    let scale: u128 = SCALE as u128;
    let current: u128 = current_side_supply as u128;
    let other: u128 = other_side_supply as u128;
    let base: u128 = base_liquidity as u128;
    let total: u128 = current + other + base;
    let weighted: u128 = (current + base / 2) * scale;
    let curve: u128 = weighted / total;
    let price: u128 = if curve < 1 {
        1
    } else {
        curve
    };
    proof {
        lemma_price_bounds(
            current_side_supply as nat,
            other_side_supply as nat,
            base_liquidity as nat,
        );
    }
    let tokens: u128 = ((incoming_amount as u128) * scale) / price;
    if tokens > (u64::MAX as u128) {
        Err(ErrorCode::Overflow)
    } else {
        Ok(Quote { tokens_to_issue: tokens as u64, price_per_token: price as u64 })
    }
}

/// The implied probability of YES, in basis points.
pub fn calculate_yes_price(yes_supply: u64, no_supply: u64) -> (r: u64)
    ensures
        r == spot_price(yes_supply as nat, no_supply as nat),
        r <= BASIS_POINTS,
{
    spot_price_of(yes_supply, no_supply)
}

/// The implied probability of NO, in basis points.
pub fn calculate_no_price(yes_supply: u64, no_supply: u64) -> (r: u64)
    ensures
        r == spot_price(no_supply as nat, yes_supply as nat),
        r <= BASIS_POINTS,
{
    spot_price_of(no_supply, yes_supply)
}

fn spot_price_of(side: u64, other: u64) -> (r: u64)
    ensures
        r == spot_price(side as nat, other as nat),
        r <= BASIS_POINTS,
{
    let total: u128 = (side as u128) + (other as u128) + (BASE_LIQUIDITY as u128);
    let points: u128 = BASIS_POINTS as u128;
    let weighted: u128 = (side as u128) * points;
    proof {
        lemma_div_at_most(weighted as int, total as int, BASIS_POINTS as int);
    }
    (weighted / total) as u64
}

} // verus!
