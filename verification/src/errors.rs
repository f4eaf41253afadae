use vstd::prelude::*;

verus! {

/// Why an operation on a market was turned down. A refused operation changes
/// nothing.
#[derive(Clone, Copy, Debug, PartialEq, Eq, Structural)]
pub enum ErrorCode {
    /// The deadline of a new market is not strictly in the future.
    InvalidDeadline,
    /// The description of a new market is longer than the limit.
    DescriptionTooLong,
    /// A purchase was attempted on a market whose outcome is already set.
    MarketResolved,
    /// A purchase was attempted at or after the deadline.
    DeadlinePassed,
    /// A resolution was attempted before the deadline.
    DeadlineNotReached,
    /// A resolution was attempted on a market that is already resolved.
    AlreadyResolved,
    /// Someone other than the creator tried to resolve the market.
    UnauthorizedResolver,
    /// A payment of zero.
    InvalidAmount,
    /// A claim was made before the market was resolved.
    MarketNotResolved,
    /// The claimant holds no tokens of the winning side.
    NoWinningTokens,
    /// The payer's balance does not cover the payment.
    InsufficientFunds,
    /// A token count or a running total would no longer fit in 64 bits.
    Overflow,
}

impl ErrorCode {
    /// The text shown to the user for this error.
    pub open spec fn message_text(self) -> Seq<char> {
        match self {
            ErrorCode::InvalidDeadline => "Invalid deadline - must be in the future"@,
            ErrorCode::DescriptionTooLong => "Description too long - max 280 characters"@,
            ErrorCode::MarketResolved => "Market already resolved"@,
            ErrorCode::DeadlinePassed => "Deadline has passed"@,
            ErrorCode::DeadlineNotReached => "Deadline not reached yet"@,
            ErrorCode::AlreadyResolved => "Prediction already resolved"@,
            ErrorCode::UnauthorizedResolver => "Unauthorized resolver"@,
            ErrorCode::InvalidAmount => "Invalid amount"@,
            ErrorCode::MarketNotResolved => "Market not resolved"@,
            ErrorCode::NoWinningTokens => "No winning tokens to claim"@,
            ErrorCode::InsufficientFunds => "Insufficient funds"@,
            ErrorCode::Overflow => "Amount too large"@,
        }
    }

    /// The text shown to the user for this error.
    pub fn message(&self) -> (r: String)
        ensures
            r@ == self.message_text(),
    {
        match self {
            ErrorCode::InvalidDeadline => "Invalid deadline - must be in the future".to_owned(),
            ErrorCode::DescriptionTooLong => "Description too long - max 280 characters".to_owned(),
            ErrorCode::MarketResolved => "Market already resolved".to_owned(),
            ErrorCode::DeadlinePassed => "Deadline has passed".to_owned(),
            ErrorCode::DeadlineNotReached => "Deadline not reached yet".to_owned(),
            ErrorCode::AlreadyResolved => "Prediction already resolved".to_owned(),
            ErrorCode::UnauthorizedResolver => "Unauthorized resolver".to_owned(),
            ErrorCode::InvalidAmount => "Invalid amount".to_owned(),
            ErrorCode::MarketNotResolved => "Market not resolved".to_owned(),
            ErrorCode::NoWinningTokens => "No winning tokens to claim".to_owned(),
            ErrorCode::InsufficientFunds => "Insufficient funds".to_owned(),
            ErrorCode::Overflow => "Amount too large".to_owned(),
        }
    }
}

} // verus!
