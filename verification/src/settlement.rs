use vstd::prelude::*;
use crate::address::Address;
use crate::arith::{lemma_div_at_most, lemma_floor_div};
use crate::errors::ErrorCode;
use crate::events::WinningsClaimed;
use crate::ledger::Wallet;
use crate::market::Prediction;

verus! {

/// The platform keeps one part in this many of the pool: five percent.
pub const PLATFORM_FEE_DIVISOR: u64 = 20;

/// The part of the pool that is kept back from a payout, truncated.
pub open spec fn platform_fee(pool: nat) -> nat {
    pool / PLATFORM_FEE_DIVISOR as nat
}

/// The part of the pool that a payout is taken from.
pub open spec fn available_payout(pool: nat) -> nat {
    (pool - platform_fee(pool)) as nat
}

/// What a holder of `tokens` out of `supply` winning tokens is paid from a
/// pool: their proportion of what is available, truncated.
pub open spec fn payout(tokens: nat, pool: nat, supply: nat) -> nat {
    tokens * available_payout(pool) / supply
}

/// No payout exceeds what is available.
pub proof fn lemma_payout_bound(tokens: nat, pool: nat, supply: nat)
    requires
        tokens <= supply,
        supply > 0,
    ensures
        payout(tokens, pool, supply) <= available_payout(pool) <= pool,
{
    let available = available_payout(pool) as int;
    assert(tokens * available <= available * supply) by (nonlinear_arith)
        requires
            0 <= tokens <= supply,
            0 <= available,
    ;
    lemma_div_at_most(tokens * available, supply as int, available);
}

/// Computes `payout`.
pub fn payout_of(holder_tokens: u64, pool_balance: u64, winning_supply: u64) -> (r: u64)
    requires
        holder_tokens <= winning_supply,
        winning_supply > 0,
    ensures
        r == payout(holder_tokens as nat, pool_balance as nat, winning_supply as nat),
        r <= available_payout(pool_balance as nat),
{
    let platform_fee: u64 = pool_balance / PLATFORM_FEE_DIVISOR;
    let available: u64 = pool_balance - platform_fee;
    proof {
        lemma_payout_bound(holder_tokens as nat, pool_balance as nat, winning_supply as nat);
        assert((holder_tokens as u128) * (available as u128) <= u128::MAX) by (nonlinear_arith)
            requires
                holder_tokens <= u64::MAX,
                available <= u64::MAX,
        ;
    }
    (((holder_tokens as u128) * (available as u128)) / (winning_supply as u128)) as u64
}

/// The sum of a list of holdings.
pub open spec fn total_holdings(holdings: Seq<nat>) -> nat
    decreases holdings.len(),
{
    if holdings.len() == 0 {
        0
    } else {
        holdings[0] + total_holdings(holdings.drop_first())
    }
}

/// What a pool pays out in all when holders claim one after the other, each
/// with the holding listed for them. A holder of nothing is turned down and
/// paid nothing; every other claim is paid from the pool as the claims before
/// it left it.
pub open spec fn total_paid(pool: nat, supply: nat, holdings: Seq<nat>) -> nat
    decreases holdings.len(),
{
    if holdings.len() == 0 {
        0
    } else if holdings[0] == 0 {
        total_paid(pool, supply, holdings.drop_first())
    } else {
        let paid = payout(holdings[0], pool, supply);
        paid + total_paid((pool - paid) as nat, supply, holdings.drop_first())
    }
}

proof fn lemma_paid_in_proportion(pool: nat, supply: nat, holdings: Seq<nat>, cap: nat)
    requires
        total_holdings(holdings) <= supply,
        available_payout(pool) <= cap,
    ensures
        total_paid(pool, supply, holdings) * supply <= total_holdings(holdings) * cap,
    decreases holdings.len(),
{
    if holdings.len() == 0 {
        let nothing = total_paid(pool, supply, holdings);
        assert(nothing * supply == 0) by (nonlinear_arith)
            requires
                nothing == 0,
        ;
    } else {
        let rest = holdings.drop_first();
        let held = holdings[0];
        if held == 0 {
            lemma_paid_in_proportion(pool, supply, rest, cap);
        } else {
            let available = available_payout(pool);
            let paid = payout(held, pool, supply);
            lemma_payout_bound(held, pool, supply);
            lemma_floor_div((held * available) as int, supply as int);
            let left = (pool - paid) as nat;
            lemma_paid_in_proportion(left, supply, rest, cap);
            let later = total_paid(left, supply, rest);
            let others = total_holdings(rest);
            assert((paid + later) * supply <= (held + others) * cap) by (nonlinear_arith)
                requires
                    paid * supply <= held * available,
                    available <= cap,
                    later * supply <= others * cap,
            ;
        }
    }
}

/// Winners are never overpaid. When holders whose holdings add up to no more
/// than the winning supply claim one after the other, all that they are paid
/// together is at most what was available when the first of them claimed. So
/// at least the platform's part of that pool is still in it afterwards; what
/// truncation cut off each payout stays there too.
pub proof fn lemma_claims_never_overpay(pool: nat, supply: nat, holdings: Seq<nat>)
    requires
        total_holdings(holdings) <= supply,
    ensures
        total_paid(pool, supply, holdings) <= available_payout(pool),
        pool - total_paid(pool, supply, holdings) >= platform_fee(pool),
{
    let available = available_payout(pool);
    lemma_paid_in_proportion(pool, supply, holdings, available);
    let paid = total_paid(pool, supply, holdings);
    let held = total_holdings(holdings);
    if supply == 0 {
        lemma_nothing_held_nothing_paid(pool, supply, holdings);
    } else {
        assert(paid <= available) by (nonlinear_arith)
            requires
                paid * supply <= held * available,
                held <= supply,
                supply > 0,
        ;
    }
}

proof fn lemma_nothing_held_nothing_paid(pool: nat, supply: nat, holdings: Seq<nat>)
    requires
        total_holdings(holdings) == 0,
    ensures
        total_paid(pool, supply, holdings) == 0,
    decreases holdings.len(),
{
    if holdings.len() > 0 {
        lemma_nothing_held_nothing_paid(pool, supply, holdings.drop_first());
    }
}

/// The accounts that a claim touches, each as it stands.
#[derive(Clone, Debug, PartialEq, Eq)]
pub struct ClaimWinnings {
    pub prediction: Prediction,
    /// Where the record lives.
    pub prediction_key: Address,
    /// The claimant's account, which is paid.
    pub user: Wallet,
    /// The market's pool.
    pub vault: Wallet,
    /// The claimant's YES tokens.
    pub user_yes_tokens: u64,
    /// The claimant's NO tokens.
    pub user_no_tokens: u64,
}

impl ClaimWinnings {
    /// The record is well formed, the pool is the one that the record names,
    /// and the claimant holds no more tokens of a side than were issued for
    /// it.
    pub open spec fn wf(&self) -> bool {
        &&& self.prediction.wf()
        &&& self.vault.key@ == self.prediction.vault@
        &&& self.user_yes_tokens <= self.prediction.yes_supply
        &&& self.user_no_tokens <= self.prediction.no_supply
    }

    /// Tests `wf`.
    pub fn is_well_formed(&self) -> (r: bool)
        ensures
            r == self.wf(),
    {
        self.prediction.is_well_formed() && self.vault.key == self.prediction.vault
            && self.user_yes_tokens <= self.prediction.yes_supply && self.user_no_tokens
            <= self.prediction.no_supply
    }

    /// The claimant's tokens of the winning side; none while there is no
    /// outcome.
    pub open spec fn winning_tokens(&self) -> nat {
        match self.prediction.outcome {
            Some(true) => self.user_yes_tokens as nat,
            Some(false) => self.user_no_tokens as nat,
            None => 0,
        }
    }

    /// All tokens issued for the winning side; none while there is no
    /// outcome.
    pub open spec fn winning_supply(&self) -> nat {
        match self.prediction.outcome {
            Some(true) => self.prediction.yes_supply as nat,
            Some(false) => self.prediction.no_supply as nat,
            None => 0,
        }
    }

    /// What the claimant is owed as the accounts stand.
    pub open spec fn owed(&self) -> nat {
        payout(self.winning_tokens(), self.vault.balance as nat, self.winning_supply())
    }

    /// Why a claim is turned down, if it is. The tests are made in this
    /// order: the market is not resolved, the claimant holds nothing of the
    /// winning side, the claimant's balance would pass 64 bits.
    pub open spec fn claim_error(&self) -> Option<ErrorCode> {
        if !self.prediction.resolved {
            Some(ErrorCode::MarketNotResolved)
        } else if self.winning_tokens() == 0 {
            Some(ErrorCode::NoWinningTokens)
        } else if self.user.balance + self.owed() > u64::MAX {
            Some(ErrorCode::Overflow)
        } else {
            None
        }
    }
}

/// Redeems the claimant's tokens of the winning side.
///
/// Where the claim is turned down, nothing changes. Otherwise, as one step:
/// the pool pays the claimant their proportion of what is available, and all
/// of the claimant's tokens of the winning side are burned, so that the same
/// holding cannot be claimed again. Tokens of the losing side stay where they
/// are, and so does the market's record. The event to announce is returned.
/// Either way the two accounts hold together what they held before.
pub fn claim_winnings(ctx: &mut ClaimWinnings) -> (r: Result<WinningsClaimed, ErrorCode>)
    requires
        old(ctx).wf(),
    ensures
        final(ctx).wf(),
        final(ctx).user.balance + final(ctx).vault.balance == old(ctx).user.balance + old(
            ctx,
        ).vault.balance,
        match r {
            Ok(event) => {
                &&& old(ctx).claim_error() is None
                &&& final(ctx).prediction == old(ctx).prediction
                &&& final(ctx).prediction_key == old(ctx).prediction_key
                &&& final(ctx).user.key == old(ctx).user.key
                &&& final(ctx).vault.key == old(ctx).vault.key
                &&& final(ctx).vault.balance == old(ctx).vault.balance - old(ctx).owed()
                &&& final(ctx).user.balance == old(ctx).user.balance + old(ctx).owed()
                &&& final(ctx).user_yes_tokens == if old(ctx).prediction.outcome == Some(true) {
                    0
                } else {
                    old(ctx).user_yes_tokens
                }
                &&& final(ctx).user_no_tokens == if old(ctx).prediction.outcome == Some(false) {
                    0
                } else {
                    old(ctx).user_no_tokens
                }
                &&& final(ctx).claim_error() == Some(ErrorCode::NoWinningTokens)
                &&& event.prediction == old(ctx).prediction_key
                &&& event.user == old(ctx).user.key
                &&& event.tokens_burned == old(ctx).winning_tokens()
                &&& event.payout == old(ctx).owed()
                &&& event.payout <= available_payout(old(ctx).vault.balance as nat)
            },
            Err(e) => {
                &&& old(ctx).claim_error() == Some(e)
                &&& *final(ctx) == *old(ctx)
            },
        },
{
    let outcome: bool = match ctx.prediction.outcome {
        Some(outcome) => outcome,
        None => {
            return Err(ErrorCode::MarketNotResolved);
        },
    };
    let (user_tokens, total_winning_supply): (u64, u64) = if outcome {
        (ctx.user_yes_tokens, ctx.prediction.yes_supply)
    } else {
        (ctx.user_no_tokens, ctx.prediction.no_supply)
    };
    if user_tokens == 0 {
        return Err(ErrorCode::NoWinningTokens);
    }
    let user_payout: u64 = payout_of(user_tokens, ctx.vault.balance, total_winning_supply);
    let new_balance: u64 = match ctx.user.balance.checked_add(user_payout) {
        Some(n) => n,
        None => {
            return Err(ErrorCode::Overflow);
        },
    };
    ctx.vault.balance = ctx.vault.balance - user_payout;
    ctx.user.balance = new_balance;
    if outcome {
        ctx.user_yes_tokens = 0;
    } else {
        ctx.user_no_tokens = 0;
    }
    Ok(
        WinningsClaimed {
            prediction: ctx.prediction_key,
            user: ctx.user.key,
            tokens_burned: user_tokens,
            payout: user_payout,
        },
    )
}

} // verus!
