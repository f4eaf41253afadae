use vstd::prelude::*;
use crate::errors::ErrorCode;

verus! {

/// The part of every payment that goes to the pool, in percent. The rest
/// goes to the market's creator.
pub const POOL_PERCENT: u64 = 98;

/// The part of a payment that goes to the pool: 98 percent, truncated.
pub open spec fn pool_share(amount: nat) -> nat {
    amount * POOL_PERCENT as nat / 100
}

/// The part of a payment that goes to the market's creator: what the pool
/// does not get, so that what truncation cuts off falls to the creator.
pub open spec fn operator_share(amount: nat) -> nat {
    (amount - pool_share(amount)) as nat
}

/// The two shares of a payment add up to the payment: the split creates no
/// value and loses none.
pub proof fn lemma_shares_add_up(amount: nat)
    ensures
        pool_share(amount) + operator_share(amount) == amount,
        pool_share(amount) <= amount,
{
}

/// Splits a payment into the pool's share and the creator's share, in this
/// order.
///
/// Fails with `InvalidAmount` exactly when the payment is zero.
pub fn split(amount: u64) -> (r: Result<(u64, u64), ErrorCode>)
    ensures
        match r {
            Ok((pool, operator)) => {
                &&& amount > 0
                &&& pool == pool_share(amount as nat)
                &&& operator == operator_share(amount as nat)
                &&& pool + operator == amount
            },
            Err(e) => amount == 0 && e == ErrorCode::InvalidAmount,
        },
{
    if amount == 0 {
        return Err(ErrorCode::InvalidAmount);
    }
    let percent: u128 = POOL_PERCENT as u128;
    let pool: u64 = (((amount as u128) * percent) / 100) as u64;
    Ok((pool, amount - pool))
}

} // verus!
