use vstd::prelude::*;
use crate::address::Address;

verus! {

/// A market was opened.
#[derive(Clone, Debug, PartialEq, Eq)]
pub struct PredictionCreated {
    pub prediction: Address,
    pub creator: Address,
    pub event_description: String,
    pub deadline: i64,
}

/// A payment bought tokens of one side.
#[derive(Clone, Copy, Debug, PartialEq, Eq)]
pub struct TokensPurchased {
    pub prediction: Address,
    pub user: Address,
    /// `true` for YES.
    pub side: bool,
    pub sol_amount: u64,
    pub tokens_received: u64,
    /// The price charged for each token, scaled.
    pub price: u64,
}

/// A holder of the winning side redeemed their tokens.
#[derive(Clone, Copy, Debug, PartialEq, Eq)]
pub struct WinningsClaimed {
    pub prediction: Address,
    pub user: Address,
    pub tokens_burned: u64,
    pub payout: u64,
}

/// The outcome of a market was set.
#[derive(Clone, Copy, Debug, PartialEq, Eq)]
pub struct PredictionResolved {
    pub prediction: Address,
    /// `true` for YES.
    pub outcome: bool,
}

} // verus!
