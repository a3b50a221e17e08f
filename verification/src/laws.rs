//! What holds of the operations, whatever their inputs.
//!
//! Each law is stated over the spec functions that the operations' own
//! contracts use: `failure` says whether an operation is refused and why,
//! `created`, `executed` and `cancelled` say what it leaves behind.

use vstd::prelude::*;
use crate::address::Address;
use crate::context::{CancelBatch, CreateBatch, ExecuteBatch};
use crate::errors::ErrorCode;
use crate::lifecycle::{lemma_disbursement_total, status_step, value_moved, Execution};
use crate::state::{total_of, valid_recipient_count, BatchStatus, Recipient, MAX_RECIPIENTS};

verus! {

/// A list of one to fifty recipients whose amounts sum within 64 bits is
/// accepted by a vault whose counter is not full, and the batch's total is
/// exactly the sum of the amounts. The new batch is pending, well formed,
/// and counted in the vault.
pub proof fn law_create_batch_totals(
    ctx: CreateBatch,
    recipients: Vec<Recipient>,
    token_mint: Option<Address>,
    batch_id: u64,
)
    requires
        valid_recipient_count(recipients@.len()),
        total_of(recipients@) <= u64::MAX,
        ctx.vault.batch_count < u64::MAX,
    ensures
        ctx.failure(recipients@) is None,
        ctx.created(recipients, token_mint, batch_id).batch.total_amount == total_of(recipients@),
        ctx.created(recipients, token_mint, batch_id).batch.recipients@ == recipients@,
        ctx.created(recipients, token_mint, batch_id).batch.status == BatchStatus::Pending,
        ctx.created(recipients, token_mint, batch_id).batch.wf(),
        ctx.created(recipients, token_mint, batch_id).vault.batch_count == ctx.vault.batch_count
            + 1,
{
}

/// An empty list and a list of more than fifty are refused with
/// `InvalidRecipientCount`.
pub proof fn law_create_batch_rejects_count(ctx: CreateBatch, recipients: Seq<Recipient>)
    requires
        recipients.len() == 0 || recipients.len() > MAX_RECIPIENTS,
    ensures
        ctx.failure(recipients) == Some(ErrorCode::InvalidRecipientCount),
{
}

/// A list whose amounts do not sum within 64 bits is never accepted.
pub proof fn law_create_batch_rejects_overflow(ctx: CreateBatch, recipients: Seq<Recipient>)
    requires
        total_of(recipients) > u64::MAX,
    ensures
        ctx.failure(recipients) is Some,
{
}

/// A batch is never executed against a vault that holds less than the
/// batch's total.
pub proof fn law_execute_needs_funds(ctx: ExecuteBatch)
    requires
        ctx.vault_lamports < ctx.batch.total_amount,
    ensures
        ctx.failure() is Some,
{
}

/// A batch is paid in full or not at all: an execution whose transfers pay
/// a well-formed batch moves exactly the batch's total, and a refused one
/// moves nothing.
pub proof fn law_all_or_nothing(ctx: ExecuteBatch, result: Result<Execution, ErrorCode>)
    requires
        ctx.batch.wf(),
        result is Ok ==> result->Ok_0.disbursement.pays(ctx),
    ensures
        result is Ok ==> value_moved(result) == ctx.batch.total_amount,
        result is Err ==> value_moved(result) == 0,
{
    if result is Ok {
        lemma_disbursement_total(result->Ok_0.disbursement, ctx);
    }
}

/// An execution that is not refused adds exactly the batch's total to the
/// vault's running total, marks the batch `Executed`, and records the time.
/// It changes nothing else in the two records.
pub proof fn law_execute_settles(ctx: ExecuteBatch)
    requires
        ctx.failure() is None,
    ensures
        ctx.executed().vault.total_paid == ctx.vault.total_paid + ctx.batch.total_amount,
        ctx.executed().batch.status == BatchStatus::Executed,
        ctx.executed().batch.executed_at == Some(ctx.unix_timestamp),
        ctx.executed().vault.batch_count == ctx.vault.batch_count,
        ctx.executed().vault.authority == ctx.vault.authority,
        ctx.executed().batch.recipients == ctx.batch.recipients,
        ctx.executed().batch.total_amount == ctx.batch.total_amount,
        ctx.executed().batch.creator == ctx.batch.creator,
{
}

/// A vault's running total never shrinks, and only an execution changes it;
/// its batch counter only grows, by one for each batch created.
pub proof fn law_vault_counters(
    create: CreateBatch,
    recipients: Vec<Recipient>,
    token_mint: Option<Address>,
    batch_id: u64,
    execute: ExecuteBatch,
)
    ensures
        create.created(recipients, token_mint, batch_id).vault.total_paid
            == create.vault.total_paid,
        create.failure(recipients@) is None ==> create.created(
            recipients,
            token_mint,
            batch_id,
        ).vault.batch_count == create.vault.batch_count + 1,
        execute.failure() is None ==> execute.executed().vault.total_paid
            >= execute.vault.total_paid,
        execute.executed().vault.batch_count == execute.vault.batch_count,
{
}

/// Only a pending batch is executed, and only a pending batch is cancelled.
pub proof fn law_only_pending_moves(execute: ExecuteBatch, cancel: CancelBatch)
    ensures
        execute.failure() is None ==> execute.batch.status == BatchStatus::Pending,
        cancel.failure() is None ==> cancel.batch.status == BatchStatus::Pending,
{
}

/// Once a batch is cancelled, every attempt to execute it is refused with
/// `InvalidBatchStatus`, whoever asks and whatever the vault holds.
pub proof fn law_cancelled_batch_stays_cancelled(cancel: CancelBatch, execute: ExecuteBatch)
    requires
        cancel.failure() is None,
        execute.batch == cancel.cancelled().batch,
    ensures
        execute.failure() == Some(ErrorCode::InvalidBatchStatus),
{
}

/// Once a batch is executed, every further attempt to execute it is refused
/// with `InvalidBatchStatus`, and every attempt to cancel it with
/// `CannotCancelExecutedBatch`.
pub proof fn law_executed_batch_stays_executed(
    first: ExecuteBatch,
    second: ExecuteBatch,
    cancel: CancelBatch,
)
    requires
        first.failure() is None,
        second.batch == first.executed().batch,
        cancel.batch == first.executed().batch,
    ensures
        second.failure() == Some(ErrorCode::InvalidBatchStatus),
        cancel.failure() == Some(ErrorCode::CannotCancelExecutedBatch),
{
}

/// No one but the vault's authority can have a batch executed.
pub proof fn law_only_authority_executes(ctx: ExecuteBatch)
    requires
        ctx.authority != ctx.vault.authority,
    ensures
        ctx.failure() is Some,
{
}

/// Another signer than the vault's authority, asking to execute a pending
/// batch against the vault it belongs to, is refused with `Unauthorized`.
pub proof fn law_other_signer_is_unauthorized(ctx: ExecuteBatch)
    requires
        ctx.authority != ctx.vault.authority,
        ctx.batch.status == BatchStatus::Pending,
        ctx.batch.vault == ctx.vault_key,
    ensures
        ctx.failure() == Some(ErrorCode::Unauthorized),
{
}

/// No one but the batch's creator can have it cancelled; another signer,
/// asking to cancel a pending batch, is refused with `Unauthorized`.
pub proof fn law_only_creator_cancels(ctx: CancelBatch)
    requires
        ctx.authority != ctx.batch.creator,
    ensures
        ctx.failure() is Some,
        ctx.batch.status == BatchStatus::Pending ==> ctx.failure() == Some(
            ErrorCode::Unauthorized,
        ),
{
}

/// A batch's status only moves forward: an execution takes it from
/// `Pending` through `Executing` to `Executed`, a cancellation from
/// `Pending` to `Cancelled`, and nothing leads out of `Executed` or
/// `Cancelled`.
pub proof fn law_status_moves_forward(
    execute: ExecuteBatch,
    cancel: CancelBatch,
    terminal: BatchStatus,
    next: BatchStatus,
)
    ensures
        execute.failure() is None ==> {
            &&& status_step(execute.batch.status, BatchStatus::Executing)
            &&& status_step(BatchStatus::Executing, execute.executed().batch.status)
        },
        cancel.failure() is None ==> status_step(
            cancel.batch.status,
            cancel.cancelled().batch.status,
        ),
        terminal == BatchStatus::Executed || terminal == BatchStatus::Cancelled ==> !status_step(
            terminal,
            next,
        ),
{
}

/// Executing and cancelling keep a well-formed batch well formed, and leave
/// its recipients and its total as they were created.
pub proof fn law_batch_is_fixed(execute: ExecuteBatch, cancel: CancelBatch)
    ensures
        execute.batch.wf() && execute.failure() is None ==> execute.executed().batch.wf(),
        cancel.batch.wf() && cancel.failure() is None ==> cancel.cancelled().batch.wf(),
        execute.executed().batch.recipients == execute.batch.recipients,
        execute.executed().batch.total_amount == execute.batch.total_amount,
        cancel.cancelled().batch.recipients == cancel.batch.recipients,
        cancel.cancelled().batch.total_amount == cancel.batch.total_amount,
{
}

} // verus!
