//! Error taxonomy of the bridge: validation, authorization and
//! state-conflict errors are rejected synchronously and leave all state
//! unchanged.

use vstd::prelude::*;

verus! {

/// Every way a bridge operation can be refused.
#[derive(Clone, Copy, Debug, PartialEq, Eq, Structural)]
pub enum BridgeError {
    BridgePaused,
    BridgeNotActive,
    UnauthorizedAdmin,
    InvalidFee,
    InvalidValidatorThreshold,
    InvalidAmount,
    InsufficientBalance,
    UnauthorizedValidator,
    InvalidBridgeTransaction,
    TransactionAlreadyCompleted,
    TransactionAlreadyFailed,
    BridgeTransactionExpired,
    InsufficientValidatorSignatures,
    MaximumValidatorsReached,
    ValidatorAlreadyExists,
    ValidatorNotFound,
    BridgeTransactionNotFound,
    InvalidBridgeState,
}

impl BridgeError {
    /// Human-readable description of the error.
    pub fn message(&self) -> (r: String)
        ensures
            r@.len() > 0,
    {
        let s = match self {
            BridgeError::BridgePaused => "Bridge is currently paused",
            BridgeError::BridgeNotActive => "Bridge is not active",
            BridgeError::UnauthorizedAdmin => "Unauthorized admin",
            BridgeError::InvalidFee => "Invalid fee percentage",
            BridgeError::InvalidValidatorThreshold => "Invalid validator threshold",
            BridgeError::InvalidAmount => "Invalid amount provided",
            BridgeError::InsufficientBalance => "Insufficient balance",
            BridgeError::UnauthorizedValidator => "Unauthorized validator",
            BridgeError::InvalidBridgeTransaction => "Invalid bridge transaction",
            BridgeError::TransactionAlreadyCompleted => "Bridge transaction already completed",
            BridgeError::TransactionAlreadyFailed => "Bridge transaction already failed",
            BridgeError::BridgeTransactionExpired => "Bridge transaction expired",
            BridgeError::InsufficientValidatorSignatures => "Insufficient validator signatures",
            BridgeError::MaximumValidatorsReached => "Maximum validators reached",
            BridgeError::ValidatorAlreadyExists => "Validator already exists",
            BridgeError::ValidatorNotFound => "Validator not found",
            BridgeError::BridgeTransactionNotFound => "Bridge transaction not found",
            BridgeError::InvalidBridgeState => "Invalid bridge state",
        };
        proof {
            reveal_strlit("Bridge is currently paused");
            reveal_strlit("Bridge is not active");
            reveal_strlit("Unauthorized admin");
            reveal_strlit("Invalid fee percentage");
            reveal_strlit("Invalid validator threshold");
            reveal_strlit("Invalid amount provided");
            reveal_strlit("Insufficient balance");
            reveal_strlit("Unauthorized validator");
            reveal_strlit("Invalid bridge transaction");
            reveal_strlit("Bridge transaction already completed");
            reveal_strlit("Bridge transaction already failed");
            reveal_strlit("Bridge transaction expired");
            reveal_strlit("Insufficient validator signatures");
            reveal_strlit("Maximum validators reached");
            reveal_strlit("Validator already exists");
            reveal_strlit("Validator not found");
            reveal_strlit("Bridge transaction not found");
            reveal_strlit("Invalid bridge state");
        }
        s.to_owned()
    }
}

/// Errors of the stand-alone validator program.
#[derive(Clone, Copy, Debug, PartialEq, Eq, Structural)]
pub enum ValidatorError {
    InvalidInstruction,
    InvalidAccount,
    InvalidArgument,
    InsufficientFunds,
    Unauthorized,
    ValidatorNotFound,
    ValidatorAlreadyExists,
    InvalidValidatorState,
}

} // verus!
