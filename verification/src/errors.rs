//! The ways an operation can be refused.

use vstd::prelude::*;

verus! {

/// Why an operation was refused. A refused operation changes nothing.
#[derive(Clone, Copy, Debug, PartialEq, Eq, Structural)]
pub enum ErrorCode {
    /// A batch was asked for with no recipient or with more than fifty.
    InvalidRecipientCount,
    /// The batch is not in the state the operation starts from.
    InvalidBatchStatus,
    /// The batch does not belong to the vault it was presented with, or a
    /// destination account is not the recipient's.
    InvalidVault,
    /// Only a pending batch can be cancelled.
    CannotCancelExecutedBatch,
    /// The caller is not the one entitled to the operation.
    Unauthorized,
    /// The vault holds less than the batch pays out, or fewer accounts were
    /// supplied than the transfers need.
    InsufficientFunds,
    /// A sum of amounts, or a counter, does not fit in 64 bits.
    ArithmeticOverflow,
}

impl ErrorCode {
    /// The text of `message`.
    pub open spec fn message_text(self) -> Seq<char> {
        match self {
            ErrorCode::InvalidRecipientCount => "Invalid recipient count (must be 1-50)"@,
            ErrorCode::InvalidBatchStatus => "Invalid batch status for this operation"@,
            ErrorCode::InvalidVault => "Invalid vault"@,
            ErrorCode::CannotCancelExecutedBatch => "Cannot cancel executed batch"@,
            ErrorCode::Unauthorized => "Unauthorized"@,
            ErrorCode::InsufficientFunds => "Insufficient funds"@,
            ErrorCode::ArithmeticOverflow => "Arithmetic overflow"@,
        }
    }

    /// The refusal in words, for the caller to read.
    pub fn message(&self) -> (text: &'static str)
        ensures
            text@ == self.message_text(),
    {
        match self {
            ErrorCode::InvalidRecipientCount => "Invalid recipient count (must be 1-50)",
            ErrorCode::InvalidBatchStatus => "Invalid batch status for this operation",
            ErrorCode::InvalidVault => "Invalid vault",
            ErrorCode::CannotCancelExecutedBatch => "Cannot cancel executed batch",
            ErrorCode::Unauthorized => "Unauthorized",
            ErrorCode::InsufficientFunds => "Insufficient funds",
            ErrorCode::ArithmeticOverflow => "Arithmetic overflow",
        }
    }
}

} // verus!
