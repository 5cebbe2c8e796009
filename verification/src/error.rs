//! The ways in which a call can fail.

use vstd::prelude::*;

verus! {

/// A failure that is no mistake of the caller's: an arithmetic fault, a
/// missing record, or a refusal by the host.
#[derive(Clone, Copy, Debug, PartialEq, Eq, Structural)]
pub enum StdError {
    /// A sum or product does not fit in 256 bits, an index lies below its
    /// checkpoint, or the clock lies before the last update.
    Overflow,
    /// An amount to pay out does not fit in 128 bits.
    ConversionOverflow,
    /// No ledger is kept for the user.
    NotFound,
    /// The host did not accept the address.
    InvalidAddress,
}

/// Why an operation was refused. A refused operation changes nothing.
#[derive(Clone, Copy, Debug, PartialEq, Eq, Structural)]
pub enum ContractError {
    Std(StdError),
    Unauthorized,
    InvalidFunds,
    InvalidCoin,
    CannotUnstake,
    CannotUnstakeAmount,
    CannotClaim,
    InsufficientContractBalance,
    InvalidApr,
    OnlyAdmin,
}

impl StdError {
    /// The text that describes the failure.
    pub open spec fn text(self) -> Seq<char> {
        match self {
            StdError::Overflow => "Arithmetic overflow"@,
            StdError::ConversionOverflow => "Amount does not fit in 128 bits"@,
            StdError::NotFound => "Staker not found"@,
            StdError::InvalidAddress => "Invalid address"@,
        }
    }

    /// The failure in words.
    pub fn message(&self) -> (r: String)
        ensures
            r@ == self.text(),
    {
        match self {
            StdError::Overflow => "Arithmetic overflow".to_string(),
            StdError::ConversionOverflow => "Amount does not fit in 128 bits".to_string(),
            StdError::NotFound => "Staker not found".to_string(),
            StdError::InvalidAddress => "Invalid address".to_string(),
        }
    }
}

impl ContractError {
    /// The text that describes the refusal.
    pub open spec fn text(self) -> Seq<char> {
        match self {
            ContractError::Std(e) => e.text(),
            ContractError::Unauthorized => "Unauthorized"@,
            ContractError::InvalidFunds => "Invalid funds were provided"@,
            ContractError::InvalidCoin => "Invalid coin passed in funds"@,
            ContractError::CannotUnstake => "No tokens were staked"@,
            ContractError::CannotUnstakeAmount => "Insufficient balance"@,
            ContractError::CannotClaim => "No claims"@,
            ContractError::InsufficientContractBalance => "Insufficient contract balance"@,
            ContractError::InvalidApr => "Invalid APR"@,
            ContractError::OnlyAdmin => "Only admin"@,
        }
    }

    /// The refusal in words.
    pub fn message(&self) -> (r: String)
        ensures
            r@ == self.text(),
    {
        match self {
            ContractError::Std(e) => e.message(),
            ContractError::Unauthorized => "Unauthorized".to_string(),
            ContractError::InvalidFunds => "Invalid funds were provided".to_string(),
            ContractError::InvalidCoin => "Invalid coin passed in funds".to_string(),
            ContractError::CannotUnstake => "No tokens were staked".to_string(),
            ContractError::CannotUnstakeAmount => "Insufficient balance".to_string(),
            ContractError::CannotClaim => "No claims".to_string(),
            ContractError::InsufficientContractBalance => {
                "Insufficient contract balance".to_string()
            },
            ContractError::InvalidApr => "Invalid APR".to_string(),
            ContractError::OnlyAdmin => "Only admin".to_string(),
        }
    }
}

} // verus!
