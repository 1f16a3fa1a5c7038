//! Why the wallet refused a call.

use vstd::prelude::*;

verus! {

/// The reason for which a call was refused. A refused call changes nothing.
#[derive(Debug, Clone, Copy, PartialEq, Eq, Structural)]
pub enum WalletError {
    /// An identity to add is already an owner.
    DuplicateOwner,
    /// None of the identities to remove is an owner.
    NotAnOwner,
    /// The threshold asked for is larger than the number of owners.
    InvalidThreshold,
    /// The threshold is zero, so nothing can be proposed, voted on or executed.
    ThresholdNotSet,
    /// A proposal came with no value attached.
    NoValueAttached,
    /// The caller is not an owner.
    CallerNotOwner,
    /// No transaction has the id that was voted on or executed.
    TxNotFound,
    /// The transaction has already been executed.
    AlreadyExecuted,
    /// The transaction has fewer votes than the threshold.
    ThresholdNotReached,
    /// No transaction has the id that was asked for.
    InvalidId,
}

impl WalletError {
    /// The text that describes each error to a user.
    pub open spec fn description(self) -> Seq<char> {
        match self {
            WalletError::DuplicateOwner => "Please supply a vector of new owners"@,
            WalletError::NotAnOwner => "Please supply a vector of previous owners"@,
            WalletError::InvalidThreshold => "Please supply correct threshold value"@,
            WalletError::ThresholdNotSet => "Please set a valid threshold"@,
            WalletError::NoValueAttached => "Please supply with attached deposit"@,
            WalletError::CallerNotOwner => "Please call with an owner account"@,
            WalletError::TxNotFound => "Transfer not found"@,
            WalletError::AlreadyExecuted => "Transfer already executed"@,
            WalletError::ThresholdNotReached => "Threshold not reached"@,
            WalletError::InvalidId => "Please enter valid id"@,
        }
    }

    /// A description of the error for the user who made the call.
    pub fn message(&self) -> (text: &'static str)
        ensures
            text@ == self.description(),
    {
        match self {
            WalletError::DuplicateOwner => "Please supply a vector of new owners",
            WalletError::NotAnOwner => "Please supply a vector of previous owners",
            WalletError::InvalidThreshold => "Please supply correct threshold value",
            WalletError::ThresholdNotSet => "Please set a valid threshold",
            WalletError::NoValueAttached => "Please supply with attached deposit",
            WalletError::CallerNotOwner => "Please call with an owner account",
            WalletError::TxNotFound => "Transfer not found",
            WalletError::AlreadyExecuted => "Transfer already executed",
            WalletError::ThresholdNotReached => "Threshold not reached",
            WalletError::InvalidId => "Please enter valid id",
        }
    }
}

} // verus!
