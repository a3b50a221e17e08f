//! Custodial batch payments: a vault pays a fixed list of recipients in one
//! all-or-nothing step, in native currency or in a fungible token.
//!
//! The crate holds the records (`PaymentVault`, `PaymentBatch`), the rules
//! that move a batch through its life (`create_batch`, `execute_batch`,
//! `cancel_batch`) and the engine that turns a batch into the ordered list
//! of transfers that pay it out. Every function states what it returns and
//! what it changes, and Verus proves that it does. One thing is taken on
//! trust: what `system_instruction::transfer` of `solana_program` builds
//! (see `instruction`).
//!
//! The host supplies storage, signatures, the clock and the transfer
//! primitives. Each operation takes what it reads from the host as plain
//! values in a context struct and works on that copy. A refused operation
//! leaves the copy as it was. An accepted one leaves in it the records to
//! store and hands back the event to publish and, for an execution, the
//! transfers to carry out. The host stores the records only once every
//! transfer has gone through, so that a batch is paid in full or not at
//! all.

pub mod address;
pub mod context;
pub mod engine;
pub mod errors;
pub mod events;
pub mod instruction;
pub mod laws;
pub mod lifecycle;
pub mod state;

pub use address::Address;
pub use context::{CancelBatch, CreateBatch, ExecuteBatch, InitializeVault};
pub use engine::{execute_sol_transfers, execute_token_transfers, NativeTransfer, TokenTransfer};
pub use errors::ErrorCode;
pub use events::{BatchCancelled, BatchCreated, BatchExecuted, VaultInitialized};
pub use instruction::{AccountMeta, Instruction};
pub use lifecycle::{
    cancel_batch, create_batch, execute_batch, initialize_vault, Disbursement, Execution,
};
pub use state::{
    checked_total, BatchStatus, PaymentBatch, PaymentVault, Recipient, MAX_RECIPIENTS,
};
