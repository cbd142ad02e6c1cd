//! Why an operation is turned down.

use vstd::prelude::*;

verus! {

/// The reason an operation was rejected. A rejected operation changes
/// nothing.
#[derive(Clone, Copy, Debug, PartialEq, Eq, Structural)]
pub enum ErrorCode {
    /// A withdrawal or a stake exceeds the player's balance.
    InsufficientFunds,
    /// A stake that no game accepts.
    InvalidBetAmount,
    /// The caller is not the identity that the operation asks for.
    Unauthorized,
    /// An amount that must be positive is zero.
    InvalidAmount,
    /// A balance would grow beyond the largest amount that can be recorded.
    ArithmeticOverflow,
    /// A balance would fall below zero.
    ArithmeticUnderflow,
    /// The house has been opened before.
    AlreadyInitialized,
    /// The player has no account and the operation does not create one.
    AccountNotFound,
}

impl ErrorCode {
    /// The text shown to a caller for each reason.
    pub open spec fn text(self) -> Seq<char> {
        match self {
            ErrorCode::InsufficientFunds => "Insufficient funds for this operation"@,
            ErrorCode::InvalidBetAmount => "Invalid bet amount"@,
            ErrorCode::Unauthorized => "Unauthorized operation"@,
            ErrorCode::InvalidAmount => "Amount must be greater than zero"@,
            ErrorCode::ArithmeticOverflow => "Balance would exceed the representable range"@,
            ErrorCode::ArithmeticUnderflow => "Balance would fall below zero"@,
            ErrorCode::AlreadyInitialized => "House is already initialized"@,
            ErrorCode::AccountNotFound => "Player account not found"@,
        }
    }

    /// The message for this reason.
    pub fn message(&self) -> (text: &'static str)
        ensures
            text@ == self.text(),
    {
        match self {
            ErrorCode::InsufficientFunds => "Insufficient funds for this operation",
            ErrorCode::InvalidBetAmount => "Invalid bet amount",
            ErrorCode::Unauthorized => "Unauthorized operation",
            ErrorCode::InvalidAmount => "Amount must be greater than zero",
            ErrorCode::ArithmeticOverflow => "Balance would exceed the representable range",
            ErrorCode::ArithmeticUnderflow => "Balance would fall below zero",
            ErrorCode::AlreadyInitialized => "House is already initialized",
            ErrorCode::AccountNotFound => "Player account not found",
        }
    }
}

} // verus!
