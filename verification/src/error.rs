//! The ways in which a request to the factory can be turned down.

use vstd::prelude::*;

verus! {

/// Why an operation was rejected. A rejected operation never registers a
/// token; what else it leaves behind is stated by the operation itself.
#[derive(Debug, Clone, Copy, PartialEq, Eq, Structural)]
pub enum FactoryError {
    /// The token identifier holds a character other than `a-z` and `0-9`.
    InvalidTokenId,
    /// The owner is not a well-formed account name.
    InvalidOwnerId,
    /// The total supply is zero.
    ZeroSupply,
    /// The precision is zero.
    ZeroPrecision,
    /// The account name derived for the new token is not well formed.
    InvalidTokenAccountId,
    /// A first deposit does not cover the one-time bookkeeping cost.
    DepositTooLow,
    /// The credit after a deposit would not fit in 128 bits.
    CreditOverflow,
    /// The requester's credit does not cover the required deposit.
    InsufficientCredit,
    /// A token with this identifier is already registered.
    DuplicateTokenId,
    /// The factory was set up before.
    AlreadyInitialized,
    /// The factory has not been set up.
    NotInitialized,
}

impl FactoryError {
    /// The text that explains the error.
    pub open spec fn message_text(self) -> Seq<char> {
        match self {
            FactoryError::InvalidTokenId => "Invalid Symbol"@,
            FactoryError::InvalidOwnerId => "Owner Account ID is invalid"@,
            FactoryError::ZeroSupply => "Total supply has to be positive"@,
            FactoryError::ZeroPrecision => "Precision has to be positive"@,
            FactoryError::InvalidTokenAccountId => "Token Account ID is invalid"@,
            FactoryError::DepositTooLow => "Deposit is too low"@,
            FactoryError::CreditOverflow => "Storage credit is too high"@,
            FactoryError::InsufficientCredit => "Not enough required balance"@,
            FactoryError::DuplicateTokenId => "Token ID is already taken"@,
            FactoryError::AlreadyInitialized => "The contract has already been initialized"@,
            FactoryError::NotInitialized => "The contract is not initialized"@,
        }
    }

    /// The text that explains the error.
    pub fn message(&self) -> (text: &'static str)
        ensures
            text@ == self.message_text(),
    {
        match self {
            FactoryError::InvalidTokenId => "Invalid Symbol",
            FactoryError::InvalidOwnerId => "Owner Account ID is invalid",
            FactoryError::ZeroSupply => "Total supply has to be positive",
            FactoryError::ZeroPrecision => "Precision has to be positive",
            FactoryError::InvalidTokenAccountId => "Token Account ID is invalid",
            FactoryError::DepositTooLow => "Deposit is too low",
            FactoryError::CreditOverflow => "Storage credit is too high",
            FactoryError::InsufficientCredit => "Not enough required balance",
            FactoryError::DuplicateTokenId => "Token ID is already taken",
            FactoryError::AlreadyInitialized => "The contract has already been initialized",
            FactoryError::NotInitialized => "The contract is not initialized",
        }
    }
}

} // verus!
