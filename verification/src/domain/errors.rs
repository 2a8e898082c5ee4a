//! The failures of the business rules. They know nothing of transport or
//! storage.

use vstd::prelude::*;

verus! {

/// A business-rule failure.
#[derive(Debug, PartialEq, Eq)]
pub enum DomainError {
    /// The amount of a deposit or withdrawal was zero or negative.
    InvalidAmount(String),
    /// A withdrawal asked for more than the account holds.
    InsufficientFunds { available: i64, requested: i64 },
    /// No account has the identifier or name that was looked up.
    AccountNotFound(String),
    /// An account of that name exists already.
    AccountAlreadyExists(String),
}

/// A business-rule failure as a mathematical value.
pub ghost enum DomainFailure {
    InvalidAmount(Seq<char>),
    InsufficientFunds { available: int, requested: int },
    AccountNotFound(Seq<char>),
    AccountAlreadyExists(Seq<char>),
}

impl View for DomainError {
    type V = DomainFailure;

    open spec fn view(&self) -> DomainFailure {
        match *self {
            DomainError::InvalidAmount(reason) => DomainFailure::InvalidAmount(reason@),
            DomainError::InsufficientFunds { available, requested } => {
                DomainFailure::InsufficientFunds {
                    available: available as int,
                    requested: requested as int,
                }
            },
            DomainError::AccountNotFound(identifier) => DomainFailure::AccountNotFound(
                identifier@,
            ),
            DomainError::AccountAlreadyExists(name) => DomainFailure::AccountAlreadyExists(name@),
        }
    }
}

impl Clone for DomainError {
    fn clone(&self) -> (copy: DomainError)
        ensures
            copy == *self,
    {
        match self {
            DomainError::InvalidAmount(reason) => DomainError::InvalidAmount(reason.clone()),
            DomainError::InsufficientFunds { available, requested } => {
                DomainError::InsufficientFunds { available: *available, requested: *requested }
            },
            DomainError::AccountNotFound(identifier) => DomainError::AccountNotFound(
                identifier.clone(),
            ),
            DomainError::AccountAlreadyExists(name) => DomainError::AccountAlreadyExists(
                name.clone(),
            ),
        }
    }
}

} // verus!
