//! The notifications an operation hands back for the host to publish.

use vstd::prelude::*;
use crate::address::Address;

verus! {

/// A vault was set up.
#[derive(Clone, Copy, Debug, PartialEq, Eq)]
pub struct VaultInitialized {
    pub vault: Address,
    pub authority: Address,
}

/// A batch was created under a vault.
#[derive(Clone, Copy, Debug, PartialEq, Eq)]
pub struct BatchCreated {
    pub batch: Address,
    pub vault: Address,
    pub batch_id: u64,
    pub recipient_count: u8,
    pub total_amount: u64,
}

/// A batch was paid out in full.
#[derive(Clone, Copy, Debug, PartialEq, Eq)]
pub struct BatchExecuted {
    pub batch: Address,
    pub total_amount: u64,
    pub recipient_count: u8,
}

/// A pending batch was withdrawn by its creator.
#[derive(Clone, Copy, Debug, PartialEq, Eq)]
pub struct BatchCancelled {
    pub batch: Address,
}

} // verus!
