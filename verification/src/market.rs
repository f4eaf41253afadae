use vstd::prelude::*;
use crate::address::Address;
use crate::pricing::{price_per_token, tokens_to_issue, BASE_LIQUIDITY};

verus! {

/// The longest description a market may carry, in bytes of UTF-8.
pub const MAX_DESCRIPTION_LEN: usize = 280;

/// The starting odds of a market that names none: even, in basis points.
pub const DEFAULT_STARTING_ODDS: u64 = 5000;

/// One side of a market.
#[derive(Clone, Copy, Debug, PartialEq, Eq, Structural)]
pub enum TradeSide {
    Yes,
    No,
}

/// The record of one market.
#[derive(Clone, Debug, PartialEq, Eq)]
pub struct Prediction {
    /// Who opened the market, and the only one who may resolve it.
    pub creator: Address,
    /// The question the market asks.
    pub event_description: String,
    /// The time at which trading stops and resolution becomes possible.
    pub deadline: i64,
    /// Where the outcome will be read from. Kept for readers; nothing
    /// depends on it.
    pub oracle_source: String,
    /// The time at which the market was opened.
    pub created_at: i64,
    /// All payments made into the market so far.
    pub total_volume: u64,
    /// All YES tokens issued so far.
    pub yes_supply: u64,
    /// All NO tokens issued so far.
    pub no_supply: u64,
    /// Whether the outcome has been set.
    pub resolved: bool,
    /// The outcome, once set: `true` for YES.
    pub outcome: Option<bool>,
    /// The odds the creator announced, in basis points. Kept for display;
    /// the price follows supply alone.
    pub starting_odds: u64,
    /// The account that issues YES tokens.
    pub yes_mint: Address,
    /// The account that issues NO tokens.
    pub no_mint: Address,
    /// The account that holds the pool.
    pub vault: Address,
}

/// A market as a mathematical value.
pub struct PredictionView {
    pub creator: Seq<u8>,
    pub event_description: Seq<char>,
    pub deadline: int,
    pub oracle_source: Seq<char>,
    pub created_at: int,
    pub total_volume: nat,
    pub yes_supply: nat,
    pub no_supply: nat,
    pub resolved: bool,
    pub outcome: Option<bool>,
    pub starting_odds: nat,
    pub yes_mint: Seq<u8>,
    pub no_mint: Seq<u8>,
    pub vault: Seq<u8>,
}

impl View for Prediction {
    type V = PredictionView;

    open spec fn view(&self) -> PredictionView {
        PredictionView {
            creator: self.creator@,
            event_description: self.event_description@,
            deadline: self.deadline as int,
            oracle_source: self.oracle_source@,
            created_at: self.created_at as int,
            total_volume: self.total_volume as nat,
            yes_supply: self.yes_supply as nat,
            no_supply: self.no_supply as nat,
            resolved: self.resolved,
            outcome: self.outcome,
            starting_odds: self.starting_odds as nat,
            yes_mint: self.yes_mint@,
            no_mint: self.no_mint@,
            vault: self.vault@,
        }
    }
}

/// The length of a description: the bytes of its UTF-8 encoding.
pub open spec fn description_len(text: Seq<char>) -> nat {
    vstd::utf8::encode_utf8(text).len()
}

impl PredictionView {
    /// What holds of every market: it has an outcome exactly when it is
    /// resolved, it was opened before its deadline, and its description is
    /// within the limit.
    pub open spec fn wf(self) -> bool {
        &&& self.resolved <==> self.outcome is Some
        &&& self.created_at < self.deadline
        &&& description_len(self.event_description) <= MAX_DESCRIPTION_LEN
    }

    /// The tokens issued so far for a side: `true` for YES.
    pub open spec fn supply(self, side: bool) -> nat {
        if side {
            self.yes_supply
        } else {
            self.no_supply
        }
    }

    /// The price of one token of a side as the market stands.
    pub open spec fn price(self, side: bool) -> nat {
        price_per_token(self.supply(side), self.supply(!side), BASE_LIQUIDITY as nat)
    }

    /// The tokens that a payment of `amount` buys of a side as the market
    /// stands.
    pub open spec fn tokens_for(self, side: bool, amount: nat) -> nat {
        tokens_to_issue(self.supply(side), self.supply(!side), BASE_LIQUIDITY as nat, amount)
    }

    /// The market after a payment of `amount` bought `tokens` of a side.
    pub open spec fn with_purchase(self, side: bool, amount: nat, tokens: nat) -> PredictionView {
        PredictionView {
            total_volume: self.total_volume + amount,
            yes_supply: if side {
                self.yes_supply + tokens
            } else {
                self.yes_supply
            },
            no_supply: if side {
                self.no_supply
            } else {
                self.no_supply + tokens
            },
            ..self
        }
    }

    /// The market after its outcome was set.
    pub open spec fn with_outcome(self, outcome: bool) -> PredictionView {
        PredictionView { resolved: true, outcome: Some(outcome), ..self }
    }
}

impl Prediction {
    /// The record satisfies what holds of every market.
    pub open spec fn wf(&self) -> bool {
        self@.wf()
    }

    /// Tests what holds of every market.
    pub fn is_well_formed(&self) -> (r: bool)
        ensures
            r == self.wf(),
    {
        self.resolved == self.outcome.is_some() && self.created_at < self.deadline
            && self.event_description.as_str().as_bytes().len() <= MAX_DESCRIPTION_LEN
    }
}

} // verus!
