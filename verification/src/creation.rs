use vstd::prelude::*;
use crate::address::Address;
use crate::errors::ErrorCode;
use crate::events::PredictionCreated;
use crate::market::{
    description_len, Prediction, PredictionView, DEFAULT_STARTING_ODDS, MAX_DESCRIPTION_LEN,
};

verus! {

/// The accounts that opening a market touches.
#[derive(Clone, Debug, PartialEq, Eq)]
pub struct CreatePrediction {
    /// The record to fill.
    pub prediction: Prediction,
    /// Where the record lives.
    pub prediction_key: Address,
    /// The account that will issue the market's YES tokens.
    pub yes_mint: Address,
    /// The account that will issue the market's NO tokens.
    pub no_mint: Address,
    /// The account that will hold the market's pool.
    pub vault: Address,
    /// Who opens the market.
    pub creator: Address,
}

/// Why a market cannot be opened, if it cannot: the deadline is tested
/// first, then the description.
pub open spec fn create_error(now: int, deadline: int, description: Seq<char>) -> Option<
    ErrorCode,
> {
    if deadline <= now {
        Some(ErrorCode::InvalidDeadline)
    } else if description_len(description) > MAX_DESCRIPTION_LEN {
        Some(ErrorCode::DescriptionTooLong)
    } else {
        None
    }
}

/// The odds a new market stores: those it was given, or even odds.
pub open spec fn odds_or_default(starting_odds: Option<u64>) -> nat {
    match starting_odds {
        Some(odds) => odds as nat,
        None => DEFAULT_STARTING_ODDS as nat,
    }
}

impl CreatePrediction {
    /// The market that these accounts open at `now`: unresolved, with
    /// nothing issued and nothing paid in.
    pub open spec fn opened(
        &self,
        now: int,
        description: Seq<char>,
        deadline: int,
        oracle_source: Seq<char>,
        starting_odds: Option<u64>,
    ) -> PredictionView {
        PredictionView {
            creator: self.creator@,
            event_description: description,
            deadline,
            oracle_source,
            created_at: now,
            total_volume: 0,
            yes_supply: 0,
            no_supply: 0,
            resolved: false,
            outcome: None,
            starting_odds: odds_or_default(starting_odds),
            yes_mint: self.yes_mint@,
            no_mint: self.no_mint@,
            vault: self.vault@,
        }
    }
}

/// Opens a market at time `now`.
///
/// Fails with `InvalidDeadline` when the deadline is not after `now`, else
/// with `DescriptionTooLong` when the description is over the limit; then
/// nothing changes. Otherwise the record is filled in and the event to
/// announce is returned.
pub fn create_prediction(
    ctx: &mut CreatePrediction,
    now: i64,
    event_description: String,
    deadline: i64,
    oracle_source: String,
    starting_odds: Option<u64>,
) -> (r: Result<PredictionCreated, ErrorCode>)
    ensures
        match r {
            Ok(event) => {
                &&& create_error(now as int, deadline as int, event_description@) is None
                &&& final(ctx).prediction@ == old(ctx).opened(
                    now as int,
                    event_description@,
                    deadline as int,
                    oracle_source@,
                    starting_odds,
                )
                &&& final(ctx).prediction.wf()
                &&& final(ctx).prediction_key == old(ctx).prediction_key
                &&& final(ctx).yes_mint == old(ctx).yes_mint
                &&& final(ctx).no_mint == old(ctx).no_mint
                &&& final(ctx).vault == old(ctx).vault
                &&& final(ctx).creator == old(ctx).creator
                &&& event.prediction == old(ctx).prediction_key
                &&& event.creator == old(ctx).creator
                &&& event.event_description@ == event_description@
                &&& event.deadline == deadline
            },
            Err(e) => {
                &&& create_error(now as int, deadline as int, event_description@) == Some(e)
                &&& *final(ctx) == *old(ctx)
            },
        },
{
    if deadline <= now {
        return Err(ErrorCode::InvalidDeadline);
    }
    if event_description.as_str().as_bytes().len() > MAX_DESCRIPTION_LEN {
        return Err(ErrorCode::DescriptionTooLong);
    }
    let odds: u64 = match starting_odds {
        Some(odds) => odds,
        None => DEFAULT_STARTING_ODDS,
    };
    let event = PredictionCreated {
        prediction: ctx.prediction_key,
        creator: ctx.creator,
        event_description: event_description.clone(),
        deadline,
    };
    ctx.prediction = Prediction {
        creator: ctx.creator,
        event_description,
        deadline,
        oracle_source,
        created_at: now,
        total_volume: 0,
        yes_supply: 0,
        no_supply: 0,
        resolved: false,
        outcome: None,
        starting_odds: odds,
        yes_mint: ctx.yes_mint,
        no_mint: ctx.no_mint,
        vault: ctx.vault,
    };
    Ok(event)
}

} // verus!
