//! What each operation reads from its host and writes back to it.
//!
//! A context holds the records the operation works on, the addresses they
//! are stored at, and the facts the host has established: who signed, what
//! the vault holds, what time it is.

use vstd::prelude::*;
use crate::address::Address;
use crate::state::{PaymentBatch, PaymentVault};

verus! {

/// The accounts of `initialize_vault`.
#[derive(Clone, Debug, PartialEq, Eq)]
pub struct InitializeVault {
    /// The record to fill, at the address derived from the authority.
    pub vault: PaymentVault,
    pub vault_key: Address,
    /// The bump seed found when the vault's address was derived.
    pub vault_bump: u8,
    /// The signer that sets the vault up and will control it.
    pub authority: Address,
}

/// The accounts of `create_batch`.
#[derive(Clone, Debug, PartialEq, Eq)]
pub struct CreateBatch {
    /// The record to fill, at the address derived from the vault and the
    /// batch's identifier.
    pub batch: PaymentBatch,
    pub batch_key: Address,
    pub vault: PaymentVault,
    pub vault_key: Address,
    /// The signer that creates the batch.
    pub creator: Address,
    /// The host's clock, in seconds.
    pub unix_timestamp: i64,
}

/// The accounts of `execute_batch`.
#[derive(Clone, Debug, PartialEq, Eq)]
pub struct ExecuteBatch {
    pub batch: PaymentBatch,
    pub batch_key: Address,
    pub vault: PaymentVault,
    pub vault_key: Address,
    /// What the vault's account holds, in native currency.
    pub vault_lamports: u64,
    /// The signer that asks for the execution.
    pub authority: Address,
    /// The addresses of the auxiliary accounts, in the order the caller
    /// supplied them. They are matched to the recipients by position.
    pub remaining_accounts: Vec<Address>,
    /// The host's clock, in seconds.
    pub unix_timestamp: i64,
}

/// The accounts of `cancel_batch`.
#[derive(Clone, Debug, PartialEq, Eq)]
pub struct CancelBatch {
    pub batch: PaymentBatch,
    pub batch_key: Address,
    /// The signer that asks for the cancellation.
    pub authority: Address,
}

} // verus!
