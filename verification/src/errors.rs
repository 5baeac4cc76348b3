//! The reasons for which an operation is refused.

use vstd::prelude::*;

verus! {

/// Every refusal is a plain return value: nothing is retried, and apart from
/// the lazy expiry of a transaction a refused call leaves all state as it was.
#[derive(Clone, Copy, Debug, PartialEq, Eq, Structural)]
pub enum MultisigError {
    /// The threshold is zero.
    InvalidThreshold,
    /// The threshold is above the total weight of the owners.
    ThresholdTooHigh,
    /// The owner set is empty.
    NoOwners,
    /// An identity occurs twice in the owner set.
    DuplicateOwner,
    /// An owner's weight is zero.
    InvalidOwnerWeight,
    /// The owner set has more than `MAX_SIGNERS` members.
    TooManyOwners,
    /// The wallet has no owner with the given identity.
    OwnerNotFound,
    /// The caller is not a current owner of the wallet.
    NotOwner,
    /// The caller is an owner but has not approved the transaction.
    Unauthorized,
    /// Only the proposer may cancel a transaction.
    NotProposer,
    /// The transaction has been executed already.
    AlreadyExecuted,
    /// The owner has approved the transaction already.
    AlreadySigned,
    /// The wallet's configuration changed after the transaction was proposed.
    OwnerSetChanged,
    /// The transaction is cancelled or expired.
    InvalidTransactionState,
    /// The expiry time of the transaction has passed.
    TransactionExpired,
    /// The pending index is at capacity.
    QueueFull,
    /// A sub-operation carries more than `MAX_ACCOUNTS` account references.
    TooManyAccounts,
    /// A sub-operation carries more than `MAX_DATA_SIZE` bytes of data.
    DataTooLarge,
    /// The pending index has no entry for the transaction.
    TransactionNotFound,
    /// The requested window of the pending index is empty.
    NoPendingTransactions,
    /// A weight sum or a counter does not fit its integer.
    ArithmeticOverflow,
    /// The approvals' weight is below the threshold.
    InsufficientSigners,
    /// A sub-operation of the payload failed.
    ExecutionFailed,
}

/// The text that goes with each error.
pub open spec fn message_of(error: MultisigError) -> Seq<char> {
    match error {
        MultisigError::InvalidThreshold => "Threshold must be greater than 0"@,
        MultisigError::ThresholdTooHigh => {
            "Threshold must be less than or equal to the total weight"@
        },
        MultisigError::NoOwners => "No owners provided"@,
        MultisigError::DuplicateOwner => "Owners must be unique"@,
        MultisigError::InvalidOwnerWeight => "Owner weight must be greater than 0"@,
        MultisigError::TooManyOwners => "Maximum number of owners exceeded"@,
        MultisigError::OwnerNotFound => "Owner not found"@,
        MultisigError::NotOwner => "Not an owner"@,
        MultisigError::Unauthorized => "Unauthorized"@,
        MultisigError::NotProposer => "Only proposer can cancel"@,
        MultisigError::AlreadyExecuted => "Transaction already executed"@,
        MultisigError::AlreadySigned => "Owner already signed"@,
        MultisigError::OwnerSetChanged => "Owner set has changed since transaction creation"@,
        MultisigError::InvalidTransactionState => "Invalid transaction state"@,
        MultisigError::TransactionExpired => "Transaction has expired"@,
        MultisigError::QueueFull => "Pending transaction queue is full"@,
        MultisigError::TooManyAccounts => "Exceeded maximum accounts limit"@,
        MultisigError::DataTooLarge => "Exceeded maximum data size"@,
        MultisigError::TransactionNotFound => "Transaction not found"@,
        MultisigError::NoPendingTransactions => "No pending transactions"@,
        MultisigError::ArithmeticOverflow => "Arithmetic overflow"@,
        MultisigError::InsufficientSigners => "Insufficient signers weight"@,
        MultisigError::ExecutionFailed => "Transaction execution failed"@,
    }
}

impl MultisigError {
    /// The error in words.
    pub fn message(&self) -> (text: &'static str)
        ensures
            text@ == message_of(*self),
    {
        match self {
            MultisigError::InvalidThreshold => "Threshold must be greater than 0",
            MultisigError::ThresholdTooHigh => {
                "Threshold must be less than or equal to the total weight"
            },
            MultisigError::NoOwners => "No owners provided",
            MultisigError::DuplicateOwner => "Owners must be unique",
            MultisigError::InvalidOwnerWeight => "Owner weight must be greater than 0",
            MultisigError::TooManyOwners => "Maximum number of owners exceeded",
            MultisigError::OwnerNotFound => "Owner not found",
            MultisigError::NotOwner => "Not an owner",
            MultisigError::Unauthorized => "Unauthorized",
            MultisigError::NotProposer => "Only proposer can cancel",
            MultisigError::AlreadyExecuted => "Transaction already executed",
            MultisigError::AlreadySigned => "Owner already signed",
            MultisigError::OwnerSetChanged => "Owner set has changed since transaction creation",
            MultisigError::InvalidTransactionState => "Invalid transaction state",
            MultisigError::TransactionExpired => "Transaction has expired",
            MultisigError::QueueFull => "Pending transaction queue is full",
            MultisigError::TooManyAccounts => "Exceeded maximum accounts limit",
            MultisigError::DataTooLarge => "Exceeded maximum data size",
            MultisigError::TransactionNotFound => "Transaction not found",
            MultisigError::NoPendingTransactions => "No pending transactions",
            MultisigError::ArithmeticOverflow => "Arithmetic overflow",
            MultisigError::InsufficientSigners => "Insufficient signers weight",
            MultisigError::ExecutionFailed => "Transaction execution failed",
        }
    }
}

} // verus!
