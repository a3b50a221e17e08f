//! The operations that create a vault and move a batch through its life.
//!
//! ```text
//! Pending --execute_batch--> Executing --> Executed
//! Pending --cancel_batch---> Cancelled
//! ```
//!
//! Each operation either applies in full or is refused and leaves its
//! context as it found it. For each, a spec function says why it is refused,
//! if it is, and another what the context is afterwards.

use vstd::prelude::*;
use crate::context::{CancelBatch, CreateBatch, ExecuteBatch, InitializeVault};
use crate::engine::{
    execute_sol_transfers,
    execute_token_transfers,
    is_native_transfer,
    native_failure,
    token_failure,
    token_transfer_for,
    NativeTransfer,
    TokenTransfer,
};
use crate::errors::ErrorCode;
use crate::events::{BatchCancelled, BatchCreated, BatchExecuted, VaultInitialized};
use crate::state::{
    checked_total,
    total_of,
    valid_recipient_count,
    BatchStatus,
    PaymentBatch,
    PaymentVault,
    Recipient,
    MAX_RECIPIENTS,
};
use crate::address::Address;

verus! {

/// The transfers that pay a batch out, in list order.
#[derive(Clone, Debug, PartialEq, Eq)]
pub enum Disbursement {
    Native(Vec<NativeTransfer>),
    Token(Vec<TokenTransfer>),
}

/// What a successful `execute_batch` hands back: the transfers that the host
/// has to carry out, all of them or none, and the event to publish.
#[derive(Clone, Debug, PartialEq, Eq)]
pub struct Execution {
    pub disbursement: Disbursement,
    pub event: BatchExecuted,
}

/// The sum of the amounts of a list of native transfers.
pub open spec fn native_total(transfers: Seq<NativeTransfer>) -> nat
    decreases transfers.len(),
{
    if transfers.len() == 0 {
        0
    } else {
        native_total(transfers.drop_last()) + transfers.last().lamports as nat
    }
}

/// The sum of the amounts of a list of token transfers.
pub open spec fn token_total(transfers: Seq<TokenTransfer>) -> nat
    decreases transfers.len(),
{
    if transfers.len() == 0 {
        0
    } else {
        token_total(transfers.drop_last()) + transfers.last().amount as nat
    }
}

impl Disbursement {
    /// The value that the disbursement moves out of the vault.
    pub open spec fn total(self) -> nat {
        match self {
            Disbursement::Native(transfers) => native_total(transfers@),
            Disbursement::Token(transfers) => token_total(transfers@),
        }
    }

    /// Whether the disbursement pays exactly the recipients of `ctx`'s
    /// batch: one transfer each, in list order, of the recipient's amount,
    /// in the batch's currency.
    pub open spec fn pays(self, ctx: ExecuteBatch) -> bool {
        match self {
            Disbursement::Native(transfers) => {
                &&& ctx.batch.token_mint is None
                &&& transfers@.len() == ctx.batch.recipients@.len()
                &&& forall|i: int|
                    0 <= i < transfers@.len() ==> is_native_transfer(
                        #[trigger] transfers@[i],
                        ctx.vault_key,
                        ctx.batch.recipients@[i],
                        i,
                    )
            },
            Disbursement::Token(transfers) => {
                &&& ctx.batch.token_mint is Some
                &&& transfers@.len() == ctx.batch.recipients@.len()
                &&& forall|i: int|
                    0 <= i < transfers@.len() ==> #[trigger] transfers@[i] == token_transfer_for(
                        ctx.vault_key,
                        ctx.remaining_accounts@,
                        ctx.batch.recipients@[i],
                        i,
                    )
            },
        }
    }
}

/// The value that an execution moves out of the vault: everything its
/// transfers carry, and nothing when it was refused.
pub open spec fn value_moved(result: Result<Execution, ErrorCode>) -> nat {
    match result {
        Ok(execution) => execution.disbursement.total(),
        Err(_) => 0,
    }
}

/// Native transfers that carry the recipients' amounts move the recipients'
/// total.
pub proof fn lemma_native_total(transfers: Seq<NativeTransfer>, recipients: Seq<Recipient>)
    requires
        transfers.len() == recipients.len(),
        forall|i: int|
            0 <= i < transfers.len() ==> (#[trigger] transfers[i]).lamports == recipients[i].amount,
    ensures
        native_total(transfers) == total_of(recipients),
    decreases transfers.len(),
{
    if transfers.len() > 0 {
        lemma_native_total(transfers.drop_last(), recipients.drop_last());
    }
}

/// Token transfers that carry the recipients' amounts move the recipients'
/// total.
pub proof fn lemma_token_total(transfers: Seq<TokenTransfer>, recipients: Seq<Recipient>)
    requires
        transfers.len() == recipients.len(),
        forall|i: int|
            0 <= i < transfers.len() ==> (#[trigger] transfers[i]).amount == recipients[i].amount,
    ensures
        token_total(transfers) == total_of(recipients),
    decreases transfers.len(),
{
    if transfers.len() > 0 {
        lemma_token_total(transfers.drop_last(), recipients.drop_last());
    }
}

/// A disbursement that pays a batch moves the sum of its recipients' amounts.
pub proof fn lemma_disbursement_total(disbursement: Disbursement, ctx: ExecuteBatch)
    requires
        disbursement.pays(ctx),
    ensures
        disbursement.total() == total_of(ctx.batch.recipients@),
{
    match disbursement {
        Disbursement::Native(transfers) => {
            lemma_native_total(transfers@, ctx.batch.recipients@);
        },
        Disbursement::Token(transfers) => {
            lemma_token_total(transfers@, ctx.batch.recipients@);
        },
    }
}

/// Whether a batch's status may change from `from` to `to` in one step.
pub open spec fn status_step(from: BatchStatus, to: BatchStatus) -> bool {
    ||| from == BatchStatus::Pending && to == BatchStatus::Executing
    ||| from == BatchStatus::Executing && to == BatchStatus::Executed
    ||| from == BatchStatus::Pending && to == BatchStatus::Cancelled
}

impl InitializeVault {
    /// The context after `initialize_vault`.
    pub open spec fn initialized(self) -> InitializeVault {
        InitializeVault {
            vault: PaymentVault {
                authority: self.authority,
                bump: self.vault_bump,
                total_paid: 0,
                batch_count: 0,
                is_active: true,
            },
            ..self
        }
    }
}

impl CreateBatch {
    /// Why `create_batch` refuses these recipients, if it does.
    pub open spec fn failure(self, recipients: Seq<Recipient>) -> Option<ErrorCode> {
        if !valid_recipient_count(recipients.len()) {
            Some(ErrorCode::InvalidRecipientCount)
        } else if total_of(recipients) > u64::MAX {
            Some(ErrorCode::ArithmeticOverflow)
        } else if self.vault.batch_count == u64::MAX {
            Some(ErrorCode::ArithmeticOverflow)
        } else {
            None
        }
    }

    /// The context after a `create_batch` that was not refused.
    pub open spec fn created(
        self,
        recipients: Vec<Recipient>,
        token_mint: Option<Address>,
        batch_id: u64,
    ) -> CreateBatch {
        CreateBatch {
            batch: PaymentBatch {
                vault: self.vault_key,
                creator: self.creator,
                batch_id,
                recipient_count: recipients@.len() as u8,
                total_amount: total_of(recipients@) as u64,
                token_mint,
                status: BatchStatus::Pending,
                created_at: self.unix_timestamp,
                executed_at: None,
                recipients,
            },
            vault: PaymentVault { batch_count: (self.vault.batch_count + 1) as u64, ..self.vault },
            ..self
        }
    }

    /// The event of a `create_batch` that was not refused.
    pub open spec fn created_event(self, recipients: Seq<Recipient>, batch_id: u64) -> BatchCreated {
        BatchCreated {
            batch: self.batch_key,
            vault: self.vault_key,
            batch_id,
            recipient_count: recipients.len() as u8,
            total_amount: total_of(recipients) as u64,
        }
    }
}

impl ExecuteBatch {
    /// Why the engine refuses the auxiliary accounts, if it does.
    pub open spec fn engine_failure(self) -> Option<ErrorCode> {
        if self.batch.token_mint is Some {
            token_failure(self.batch.recipients@, self.remaining_accounts@)
        } else {
            native_failure(self.batch.recipients@, self.remaining_accounts@)
        }
    }

    /// Why `execute_batch` is refused, if it is. The checks are made in this
    /// order, and the first that fails decides.
    pub open spec fn failure(self) -> Option<ErrorCode> {
        if self.batch.status != BatchStatus::Pending {
            Some(ErrorCode::InvalidBatchStatus)
        } else if self.batch.vault != self.vault_key {
            Some(ErrorCode::InvalidVault)
        } else if self.authority != self.vault.authority {
            Some(ErrorCode::Unauthorized)
        } else if self.vault_lamports < self.batch.total_amount {
            Some(ErrorCode::InsufficientFunds)
        } else if self.engine_failure() is Some {
            self.engine_failure()
        } else if self.vault.total_paid + self.batch.total_amount > u64::MAX {
            Some(ErrorCode::ArithmeticOverflow)
        } else {
            None
        }
    }

    /// The context after an `execute_batch` that was not refused.
    pub open spec fn executed(self) -> ExecuteBatch {
        ExecuteBatch {
            batch: PaymentBatch {
                status: BatchStatus::Executed,
                executed_at: Some(self.unix_timestamp),
                ..self.batch
            },
            vault: PaymentVault {
                total_paid: (self.vault.total_paid + self.batch.total_amount) as u64,
                ..self.vault
            },
            ..self
        }
    }

    /// The event of an `execute_batch` that was not refused.
    pub open spec fn executed_event(self) -> BatchExecuted {
        BatchExecuted {
            batch: self.batch_key,
            total_amount: self.batch.total_amount,
            recipient_count: self.batch.recipient_count,
        }
    }
}

impl CancelBatch {
    /// Why `cancel_batch` is refused, if it is.
    pub open spec fn failure(self) -> Option<ErrorCode> {
        if self.batch.status != BatchStatus::Pending {
            Some(ErrorCode::CannotCancelExecutedBatch)
        } else if self.batch.creator != self.authority {
            Some(ErrorCode::Unauthorized)
        } else {
            None
        }
    }

    /// The context after a `cancel_batch` that was not refused.
    pub open spec fn cancelled(self) -> CancelBatch {
        CancelBatch {
            batch: PaymentBatch { status: BatchStatus::Cancelled, ..self.batch },
            ..self
        }
    }
}

/// Sets up the vault of `ctx.authority`: nothing paid, no batch, active.
pub fn initialize_vault(ctx: &mut InitializeVault) -> (result: Result<VaultInitialized, ErrorCode>)
    ensures
        *final(ctx) == old(ctx).initialized(),
        result == Ok::<VaultInitialized, ErrorCode>(
            (VaultInitialized { vault: old(ctx).vault_key, authority: old(ctx).authority }),
        ),
{
    ctx.vault.authority = ctx.authority;
    ctx.vault.bump = ctx.vault_bump;
    ctx.vault.total_paid = 0;
    ctx.vault.batch_count = 0;
    ctx.vault.is_active = true;
    Ok(VaultInitialized { vault: ctx.vault_key, authority: ctx.vault.authority })
}

/// Creates a pending batch that pays `recipients` and counts it in the vault.
///
/// A list that is empty or longer than fifty is refused with
/// `InvalidRecipientCount`; one whose amounts do not sum within 64 bits, or
/// a vault whose batch counter is full, with `ArithmeticOverflow`. A refusal
/// changes nothing.
pub fn create_batch(
    ctx: &mut CreateBatch,
    recipients: Vec<Recipient>,
    token_mint: Option<Address>,
    batch_id: u64,
) -> (result: Result<BatchCreated, ErrorCode>)
    ensures
        match old(ctx).failure(recipients@) {
            Some(e) => result == Err::<BatchCreated, ErrorCode>(e) && *final(ctx) == *old(ctx),
            None => {
                &&& result == Ok::<BatchCreated, ErrorCode>(
                    old(ctx).created_event(recipients@, batch_id),
                )
                &&& *final(ctx) == old(ctx).created(recipients, token_mint, batch_id)
                &&& final(ctx).batch.wf()
                &&& final(ctx).batch.total_amount == total_of(recipients@)
            },
        },
{
    if !(recipients.len() > 0 && recipients.len() <= MAX_RECIPIENTS) {
        return Err(ErrorCode::InvalidRecipientCount);
    }
    let total_amount: u64 = match checked_total(&recipients) {
        Some(total) => total,
        None => {
            return Err(ErrorCode::ArithmeticOverflow);
        },
    };
    let batch_count: u64 = match ctx.vault.batch_count.checked_add(1) {
        Some(count) => count,
        None => {
            return Err(ErrorCode::ArithmeticOverflow);
        },
    };
    let recipient_count: u8 = recipients.len() as u8;

    ctx.batch.vault = ctx.vault_key;
    ctx.batch.creator = ctx.creator;
    ctx.batch.batch_id = batch_id;
    ctx.batch.recipient_count = recipient_count;
    ctx.batch.total_amount = total_amount;
    ctx.batch.token_mint = token_mint;
    ctx.batch.status = BatchStatus::Pending;
    ctx.batch.created_at = ctx.unix_timestamp;
    ctx.batch.executed_at = None;
    ctx.batch.recipients = recipients;

    ctx.vault.batch_count = batch_count;

    Ok(
        BatchCreated {
            batch: ctx.batch_key,
            vault: ctx.vault_key,
            batch_id,
            recipient_count,
            total_amount,
        },
    )
}

/// Pays a pending batch out of its vault, on the vault authority's request.
///
/// Refused, in this order: with `InvalidBatchStatus` unless the batch is
/// pending; with `InvalidVault` unless it belongs to the vault; with
/// `Unauthorized` unless the signer is the vault's authority; with
/// `InsufficientFunds` if the vault holds less than the batch's total; with
/// the engine's error if the auxiliary accounts do not fit the recipients;
/// with `ArithmeticOverflow` if the vault's running total would not fit in
/// 64 bits. A refusal changes nothing.
///
/// Otherwise the batch is `Executed` at the host's time, the vault's running
/// total has grown by the batch's total, and the result holds one transfer
/// per recipient, in list order. The host carries the transfers out and
/// then stores the records; if a transfer fails it stores nothing, and the
/// batch is still pending.
pub fn execute_batch(ctx: &mut ExecuteBatch) -> (result: Result<Execution, ErrorCode>)
    ensures
        match old(ctx).failure() {
            Some(e) => result == Err::<Execution, ErrorCode>(e) && *final(ctx) == *old(ctx),
            None => {
                &&& result is Ok
                &&& result->Ok_0.event == old(ctx).executed_event()
                &&& result->Ok_0.disbursement.pays(*old(ctx))
                &&& result->Ok_0.disbursement.total() == total_of(old(ctx).batch.recipients@)
                &&& *final(ctx) == old(ctx).executed()
            },
        },
        old(ctx).batch.wf() ==> final(ctx).batch.wf(),
        value_moved(result) == (if old(ctx).failure() is None {
            total_of(old(ctx).batch.recipients@)
        } else {
            0
        }),
        old(ctx).batch.wf() && result is Ok ==> value_moved(result) == old(ctx).batch.total_amount,
{
    if ctx.batch.status != BatchStatus::Pending {
        return Err(ErrorCode::InvalidBatchStatus);
    }
    if ctx.batch.vault != ctx.vault_key {
        return Err(ErrorCode::InvalidVault);
    }
    if ctx.authority != ctx.vault.authority {
        return Err(ErrorCode::Unauthorized);
    }
    if ctx.vault_lamports < ctx.batch.total_amount {
        return Err(ErrorCode::InsufficientFunds);
    }
    ctx.batch.status = BatchStatus::Executing;

    let planned = if ctx.batch.token_mint.is_some() {
        match execute_token_transfers(ctx) {
            Ok(transfers) => Ok(Disbursement::Token(transfers)),
            Err(e) => Err(e),
        }
    } else {
        match execute_sol_transfers(ctx) {
            Ok(transfers) => Ok(Disbursement::Native(transfers)),
            Err(e) => Err(e),
        }
    };
    let disbursement = match planned {
        Ok(disbursement) => disbursement,
        Err(e) => {
            ctx.batch.status = BatchStatus::Pending;
            return Err(e);
        },
    };
    let total_paid: u64 = match ctx.vault.total_paid.checked_add(ctx.batch.total_amount) {
        Some(total) => total,
        None => {
            ctx.batch.status = BatchStatus::Pending;
            return Err(ErrorCode::ArithmeticOverflow);
        },
    };

    ctx.batch.status = BatchStatus::Executed;
    ctx.batch.executed_at = Some(ctx.unix_timestamp);
    ctx.vault.total_paid = total_paid;
    proof {
        lemma_disbursement_total(disbursement, *old(ctx));
    }

    Ok(
        Execution {
            disbursement,
            event: BatchExecuted {
                batch: ctx.batch_key,
                total_amount: ctx.batch.total_amount,
                recipient_count: ctx.batch.recipient_count,
            },
        },
    )
}

/// Withdraws a pending batch, on its creator's request. No funds move.
///
/// Refused with `CannotCancelExecutedBatch` unless the batch is pending, and
/// then with `Unauthorized` unless the signer is the batch's creator. A
/// refusal changes nothing.
pub fn cancel_batch(ctx: &mut CancelBatch) -> (result: Result<BatchCancelled, ErrorCode>)
    ensures
        match old(ctx).failure() {
            Some(e) => result == Err::<BatchCancelled, ErrorCode>(e) && *final(ctx) == *old(ctx),
            None => {
                &&& result == Ok::<BatchCancelled, ErrorCode>(
                    (BatchCancelled { batch: old(ctx).batch_key }),
                )
                &&& *final(ctx) == old(ctx).cancelled()
            },
        },
        old(ctx).batch.wf() ==> final(ctx).batch.wf(),
{
    if ctx.batch.status != BatchStatus::Pending {
        return Err(ErrorCode::CannotCancelExecutedBatch);
    }
    if ctx.batch.creator != ctx.authority {
        return Err(ErrorCode::Unauthorized);
    }
    ctx.batch.status = BatchStatus::Cancelled;
    Ok(BatchCancelled { batch: ctx.batch_key })
}

} // verus!
