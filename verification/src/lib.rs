//! A binary-outcome prediction market.
//!
//! Buyers pay into a shared pool and receive YES or NO position tokens at a
//! price that follows the supply of each side. After the deadline the creator
//! resolves the market, and holders of the winning side redeem their tokens
//! for a proportional share of the pool.
//!
//! Every operation takes the accounts it touches as plain values, tests the
//! rules, and either changes all of them as one step or none of them.

pub mod address;
mod arith;
pub mod creation;
pub mod errors;
pub mod events;
pub mod fees;
pub mod ledger;
pub mod market;
pub mod pricing;
pub mod purchase;
pub mod resolution;
pub mod settlement;

pub use address::Address;
pub use errors::ErrorCode;
pub use events::{PredictionCreated, PredictionResolved, TokensPurchased, WinningsClaimed};
pub use fees::split;
pub use creation::{create_prediction, CreatePrediction};
pub use ledger::Wallet;
pub use market::{Prediction, TradeSide};
pub use purchase::{buy_tokens, BuyTokens};
pub use resolution::{resolve_prediction, ResolvePrediction};
pub use pricing::{calculate_no_price, calculate_yes_price, quote, Quote};
pub use settlement::{claim_winnings, payout_of, ClaimWinnings};
