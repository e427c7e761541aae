//! Why a transaction is turned down.

use vstd::prelude::*;
use crate::contract::ContractType;

verus! {

/// A precondition of a contract that the state does not meet.
#[derive(Clone, Copy, Debug, PartialEq, Eq, Structural)]
pub enum ValidationError {
    /// The amount is zero or negative.
    InvalidAmount,
    /// Sender and recipient are the same address.
    SelfTransfer,
    /// The owner has no account.
    AccountNotFound,
    /// The owner's balance does not cover what the contract takes.
    InsufficientBalance,
    /// The witness gave no URL.
    InvalidUrl,
    /// The owner is a witness already.
    WitnessExists,
    /// The owner is no witness.
    NotWitness,
    /// The proposal changes no parameter.
    EmptyParameters,
    /// No proposal has the identifier.
    ProposalNotFound,
    /// The owner approves of the proposal already.
    AlreadyApproved,
    /// The owner has given no approval to withdraw.
    NotApproved,
    /// The resource code is unknown.
    InvalidResource,
}

/// Why executing a transaction failed. Whatever the reason, the state is as
/// it was before.
#[derive(Clone, Copy, Debug, PartialEq, Eq, Structural)]
pub enum ExecutionError {
    /// The transaction carries no contract, its type tag is unknown, or its
    /// parameter is missing or of another kind.
    DecodeError,
    /// A signature is malformed, or the signer is not the declared owner.
    AuthError,
    /// The contract's preconditions do not hold.
    ValidationError(ValidationError),
    /// Applying the contract to the state failed.
    ExecutionFailed,
    /// Neither bandwidth credit nor balance covers the transaction's cost.
    ResourceError,
    /// The kind of contract is known, but the ledger has no actuator for it.
    Unsupported(ContractType),
}

impl ExecutionError {
    /// A short description of the error, for logs and for callers that pass
    /// errors on as text.
    pub fn message(&self) -> (text: &'static str)
        ensures
            text@ == (match *self {
                ExecutionError::DecodeError => "invalid contract"@,
                ExecutionError::AuthError => "invalid signature"@,
                ExecutionError::ValidationError(_) => "contract validation failed"@,
                ExecutionError::ExecutionFailed => "contract execution failed"@,
                ExecutionError::ResourceError => "insufficient bandwidth and balance"@,
                ExecutionError::Unsupported(_) => "unsupported contract type"@,
            }),
    {
        match self {
            ExecutionError::DecodeError => "invalid contract",
            ExecutionError::AuthError => "invalid signature",
            ExecutionError::ValidationError(_) => "contract validation failed",
            ExecutionError::ExecutionFailed => "contract execution failed",
            ExecutionError::ResourceError => "insufficient bandwidth and balance",
            ExecutionError::Unsupported(_) => "unsupported contract type",
        }
    }
}

/// An actuator's effect could not be applied to the state.
#[derive(Clone, Copy, Debug, PartialEq, Eq, Structural)]
pub struct ExecuteFailure;

/// The payer has neither the bandwidth credit nor the balance that a
/// transaction costs.
#[derive(Clone, Copy, Debug, PartialEq, Eq, Structural)]
pub struct ResourceError;

} // verus!
