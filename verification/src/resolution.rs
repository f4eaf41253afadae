use vstd::prelude::*;
use crate::address::Address;
use crate::errors::ErrorCode;
use crate::events::PredictionResolved;
use crate::market::{Prediction, PredictionView};

verus! {

/// The accounts that a resolution touches.
#[derive(Clone, Debug, PartialEq, Eq)]
pub struct ResolvePrediction {
    pub prediction: Prediction,
    /// Where the record lives.
    pub prediction_key: Address,
    /// Who asks for the resolution.
    pub resolver: Address,
}

/// Why a resolution asked for by `resolver` at `now` is turned down, if it
/// is. The tests are made in this order: the deadline has not come, the
/// market is resolved, the resolver is not the creator.
pub open spec fn resolve_error(market: PredictionView, now: int, resolver: Seq<u8>) -> Option<
    ErrorCode,
> {
    if now < market.deadline {
        Some(ErrorCode::DeadlineNotReached)
    } else if market.resolved {
        Some(ErrorCode::AlreadyResolved)
    } else if resolver != market.creator {
        Some(ErrorCode::UnauthorizedResolver)
    } else {
        None
    }
}

/// The market that an attempt to resolve it leaves: with the outcome set
/// where the attempt is accepted, and as it was where it is turned down.
pub open spec fn resolve_step(
    market: PredictionView,
    now: int,
    resolver: Seq<u8>,
    outcome: bool,
) -> PredictionView {
    if resolve_error(market, now, resolver) is None {
        market.with_outcome(outcome)
    } else {
        market
    }
}

/// A market is resolved once. After an attempt was accepted, every later
/// attempt at or after the deadline is turned down as already resolved,
/// whoever makes it and whatever outcome it names, and leaves the market as
/// the first resolution left it.
pub proof fn lemma_resolved_once(
    market: PredictionView,
    first_time: int,
    first_resolver: Seq<u8>,
    first_outcome: bool,
    second_time: int,
    second_resolver: Seq<u8>,
    second_outcome: bool,
)
    requires
        resolve_error(market, first_time, first_resolver) is None,
        second_time >= market.deadline,
    ensures
        ({
            let resolved = resolve_step(market, first_time, first_resolver, first_outcome);
            &&& resolved.resolved
            &&& resolved.outcome == Some(first_outcome)
            &&& resolve_error(resolved, second_time, second_resolver) == Some(
                ErrorCode::AlreadyResolved,
            )
            &&& resolve_step(resolved, second_time, second_resolver, second_outcome) == resolved
        }),
{
}

impl ResolvePrediction {
    /// The record is well formed.
    pub open spec fn wf(&self) -> bool {
        self.prediction.wf()
    }

    /// Tests `wf`.
    pub fn is_well_formed(&self) -> (r: bool)
        ensures
            r == self.wf(),
    {
        self.prediction.is_well_formed()
    }
}

/// Sets the outcome of a market (`true` for YES) at time `now`.
///
/// Where the attempt is turned down, nothing changes. Otherwise the market
/// is resolved with this outcome, for good, and the event to announce is
/// returned.
pub fn resolve_prediction(ctx: &mut ResolvePrediction, now: i64, outcome: bool) -> (r: Result<
    PredictionResolved,
    ErrorCode,
>)
    requires
        old(ctx).wf(),
    ensures
        final(ctx).wf(),
        final(ctx).prediction@ == resolve_step(
            old(ctx).prediction@,
            now as int,
            old(ctx).resolver@,
            outcome,
        ),
        match r {
            Ok(event) => {
                &&& resolve_error(old(ctx).prediction@, now as int, old(ctx).resolver@) is None
                &&& final(ctx).prediction_key == old(ctx).prediction_key
                &&& final(ctx).resolver == old(ctx).resolver
                &&& event.prediction == old(ctx).prediction_key
                &&& event.outcome == outcome
            },
            Err(e) => {
                &&& resolve_error(old(ctx).prediction@, now as int, old(ctx).resolver@) == Some(e)
                &&& *final(ctx) == *old(ctx)
            },
        },
{
    if now < ctx.prediction.deadline {
        return Err(ErrorCode::DeadlineNotReached);
    }
    if ctx.prediction.resolved {
        return Err(ErrorCode::AlreadyResolved);
    }
    if ctx.resolver != ctx.prediction.creator {
        return Err(ErrorCode::UnauthorizedResolver);
    }
    ctx.prediction.resolved = true;
    ctx.prediction.outcome = Some(outcome);
    Ok(PredictionResolved { prediction: ctx.prediction_key, outcome })
}

} // verus!
