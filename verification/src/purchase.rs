use vstd::prelude::*;
use crate::address::Address;
use crate::errors::ErrorCode;
use crate::events::TokensPurchased;
use crate::fees::{operator_share, pool_share, split};
use crate::ledger::Wallet;
use crate::market::Prediction;
use crate::pricing::{quote, BASE_LIQUIDITY};

verus! {

/// The accounts that a purchase touches, each as it stands.
#[derive(Clone, Debug, PartialEq, Eq)]
pub struct BuyTokens {
    pub prediction: Prediction,
    /// Where the record lives.
    pub prediction_key: Address,
    /// The buyer's account, which pays.
    pub user: Wallet,
    /// The market's pool.
    pub vault: Wallet,
    /// The account of the market's creator.
    pub creator: Wallet,
    /// The buyer's YES tokens.
    pub user_yes_tokens: u64,
    /// The buyer's NO tokens.
    pub user_no_tokens: u64,
}

impl BuyTokens {
    /// The record is well formed, the pool and the creator's account are
    /// those that the record names, and the buyer holds no more tokens of a
    /// side than were issued for it.
    pub open spec fn wf(&self) -> bool {
        &&& self.prediction.wf()
        &&& self.vault.key@ == self.prediction.vault@
        &&& self.creator.key@ == self.prediction.creator@
        &&& self.user_yes_tokens <= self.prediction.yes_supply
        &&& self.user_no_tokens <= self.prediction.no_supply
    }

    /// Tests `wf`.
    pub fn is_well_formed(&self) -> (r: bool)
        ensures
            r == self.wf(),
    {
        self.prediction.is_well_formed() && self.vault.key == self.prediction.vault
            && self.creator.key == self.prediction.creator && self.user_yes_tokens
            <= self.prediction.yes_supply && self.user_no_tokens <= self.prediction.no_supply
    }

    /// Whether a purchase of `amount` on a side would push a count or a
    /// balance past 64 bits: the tokens to issue, the side's supply, the
    /// market's volume, the pool or the creator's account.
    pub open spec fn purchase_overflows(&self, side: bool, amount: nat) -> bool {
        let tokens = self.prediction@.tokens_for(side, amount);
        ||| tokens > u64::MAX
        ||| self.prediction@.supply(side) + tokens > u64::MAX
        ||| self.prediction.total_volume + amount > u64::MAX
        ||| self.vault.balance + pool_share(amount) > u64::MAX
        ||| self.creator.balance + operator_share(amount) > u64::MAX
    }

    /// Why a purchase of `amount` on a side at `now` is turned down, if it
    /// is. The tests are made in this order: the market is resolved, the
    /// deadline has come, the payment is zero, a number would not fit, the
    /// buyer cannot pay.
    pub open spec fn purchase_error(&self, now: int, side: bool, amount: nat) -> Option<
        ErrorCode,
    > {
        if self.prediction.resolved {
            Some(ErrorCode::MarketResolved)
        } else if now >= self.prediction.deadline {
            Some(ErrorCode::DeadlinePassed)
        } else if amount == 0 {
            Some(ErrorCode::InvalidAmount)
        } else if self.purchase_overflows(side, amount) {
            Some(ErrorCode::Overflow)
        } else if self.user.balance < amount {
            Some(ErrorCode::InsufficientFunds)
        } else {
            None
        }
    }
}

/// Buys tokens of one side (`true` for YES) for `sol_amount` at time `now`.
///
/// Where the purchase is turned down, nothing changes. Otherwise, as one
/// step: the buyer pays `sol_amount`, of which the pool gets its share and
/// the creator the rest; the buyer receives the tokens that the payment buys
/// at the price before the purchase; the side's supply grows by these tokens
/// and the market's volume by the payment. The event to announce is returned.
/// Either way the three accounts hold together what they held before.
pub fn buy_tokens(ctx: &mut BuyTokens, now: i64, side: bool, sol_amount: u64) -> (r: Result<
    TokensPurchased,
    ErrorCode,
>)
    requires
        old(ctx).wf(),
    ensures
        final(ctx).wf(),
        final(ctx).prediction.yes_supply >= old(ctx).prediction.yes_supply,
        final(ctx).prediction.no_supply >= old(ctx).prediction.no_supply,
        final(ctx).prediction.total_volume >= old(ctx).prediction.total_volume,
        final(ctx).user.balance + final(ctx).vault.balance + final(ctx).creator.balance == old(
            ctx,
        ).user.balance + old(ctx).vault.balance + old(ctx).creator.balance,
        match r {
            Ok(event) => {
                let tokens = old(ctx).prediction@.tokens_for(side, sol_amount as nat);
                &&& old(ctx).purchase_error(now as int, side, sol_amount as nat) is None
                &&& final(ctx).prediction@ == old(ctx).prediction@.with_purchase(
                    side,
                    sol_amount as nat,
                    tokens,
                )
                &&& final(ctx).prediction_key == old(ctx).prediction_key
                &&& final(ctx).user.key == old(ctx).user.key
                &&& final(ctx).vault.key == old(ctx).vault.key
                &&& final(ctx).creator.key == old(ctx).creator.key
                &&& final(ctx).user.balance == old(ctx).user.balance - sol_amount
                &&& final(ctx).vault.balance == old(ctx).vault.balance + pool_share(
                    sol_amount as nat,
                )
                &&& final(ctx).creator.balance == old(ctx).creator.balance + operator_share(
                    sol_amount as nat,
                )
                &&& final(ctx).user_yes_tokens == old(ctx).user_yes_tokens + if side {
                    tokens
                } else {
                    0
                }
                &&& final(ctx).user_no_tokens == old(ctx).user_no_tokens + if side {
                    0
                } else {
                    tokens
                }
                &&& event.prediction == old(ctx).prediction_key
                &&& event.user == old(ctx).user.key
                &&& event.side == side
                &&& event.sol_amount == sol_amount
                &&& event.tokens_received == tokens
                &&& event.price == old(ctx).prediction@.price(side)
            },
            Err(e) => {
                &&& old(ctx).purchase_error(now as int, side, sol_amount as nat) == Some(e)
                &&& *final(ctx) == *old(ctx)
            },
        },
{
    if ctx.prediction.resolved {
        return Err(ErrorCode::MarketResolved);
    }
    if now >= ctx.prediction.deadline {
        return Err(ErrorCode::DeadlinePassed);
    }
    let (vault_amount, creator_fee): (u64, u64) = match split(sol_amount) {
        Ok(shares) => shares,
        Err(e) => {
            return Err(e);
        },
    };
    let (current_supply, other_supply): (u64, u64) = if side {
        (ctx.prediction.yes_supply, ctx.prediction.no_supply)
    } else {
        (ctx.prediction.no_supply, ctx.prediction.yes_supply)
    };
    let quoted = match quote(current_supply, other_supply, BASE_LIQUIDITY, sol_amount) {
        Ok(quoted) => quoted,
        Err(e) => {
            return Err(e);
        },
    };
    let tokens: u64 = quoted.tokens_to_issue;
    let new_supply: u64 = match current_supply.checked_add(tokens) {
        Some(n) => n,
        None => {
            return Err(ErrorCode::Overflow);
        },
    };
    let new_volume: u64 = match ctx.prediction.total_volume.checked_add(sol_amount) {
        Some(n) => n,
        None => {
            return Err(ErrorCode::Overflow);
        },
    };
    let new_vault: u64 = match ctx.vault.balance.checked_add(vault_amount) {
        Some(n) => n,
        None => {
            return Err(ErrorCode::Overflow);
        },
    };
    let new_creator: u64 = match ctx.creator.balance.checked_add(creator_fee) {
        Some(n) => n,
        None => {
            return Err(ErrorCode::Overflow);
        },
    };
    if ctx.user.balance < sol_amount {
        return Err(ErrorCode::InsufficientFunds);
    }
    ctx.user.balance = ctx.user.balance - sol_amount;
    ctx.vault.balance = new_vault;
    ctx.creator.balance = new_creator;
    if side {
        ctx.user_yes_tokens = ctx.user_yes_tokens + tokens;
        ctx.prediction.yes_supply = new_supply;
    } else {
        ctx.user_no_tokens = ctx.user_no_tokens + tokens;
        ctx.prediction.no_supply = new_supply;
    }
    ctx.prediction.total_volume = new_volume;
    Ok(
        TokensPurchased {
            prediction: ctx.prediction_key,
            user: ctx.user.key,
            side,
            sol_amount,
            tokens_received: tokens,
            price: quoted.price_per_token,
        },
    )
}

} // verus!
