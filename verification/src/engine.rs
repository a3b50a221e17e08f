//! The disbursement engine: from a batch and the auxiliary accounts to the
//! transfers that pay every recipient, in list order.
//!
//! The engine moves nothing itself. It checks the accounts it was given and
//! writes down each transfer; the host carries them out under the vault's
//! signature, all of them or none.

use vstd::prelude::*;
use crate::address::Address;
use crate::context::ExecuteBatch;
use crate::errors::ErrorCode;
use crate::instruction::{is_system_transfer, system_transfer, Instruction};
use crate::state::Recipient;

verus! {

/// In token mode, where the token program stands among the auxiliary accounts.
pub const TOKEN_PROGRAM_INDEX: usize = 0;

/// In token mode, where the vault's token account stands.
pub const VAULT_TOKEN_ACCOUNT_INDEX: usize = 1;

/// In token mode, where the first recipient's token account stands.
pub const FIRST_TOKEN_DESTINATION_INDEX: usize = 2;

/// One payment in native currency.
#[derive(Clone, Debug, PartialEq, Eq)]
pub struct NativeTransfer {
    /// Which auxiliary account receives the payment.
    pub account_index: usize,
    pub to: Address,
    pub lamports: u64,
    /// The system transfer from the vault to `to`, to be invoked under the
    /// vault's signature.
    pub instruction: Instruction,
}

/// One payment in tokens.
#[derive(Clone, Copy, Debug, PartialEq, Eq)]
pub struct TokenTransfer {
    pub token_program: Address,
    /// The vault's token account.
    pub from: Address,
    /// Which auxiliary account receives the payment.
    pub account_index: usize,
    pub to: Address,
    /// The vault, whose signature authorizes the transfer.
    pub authority: Address,
    pub amount: u64,
}

/// Whether some recipient's auxiliary account is present and is not the
/// recipient's own.
pub open spec fn native_mismatch(recipients: Seq<Recipient>, accounts: Seq<Address>) -> bool {
    exists|i: int|
        0 <= i < recipients.len() && i < accounts.len() && #[trigger] accounts[i]
            != recipients[i].address
}

/// Why the native engine refuses, if it does. The accounts are taken in
/// order, one per recipient: the first that is missing or wrong decides.
pub open spec fn native_failure(recipients: Seq<Recipient>, accounts: Seq<Address>) -> Option<
    ErrorCode,
> {
    if native_mismatch(recipients, accounts) {
        Some(ErrorCode::InvalidVault)
    } else if accounts.len() < recipients.len() {
        Some(ErrorCode::InsufficientFunds)
    } else {
        None
    }
}

/// Whether `transfer` pays `recipient`, the `index`-th of its batch, from
/// the vault at `vault_key`.
pub open spec fn is_native_transfer(
    transfer: NativeTransfer,
    vault_key: Address,
    recipient: Recipient,
    index: int,
) -> bool {
    &&& transfer.account_index == index
    &&& transfer.to == recipient.address
    &&& transfer.lamports == recipient.amount
    &&& is_system_transfer(transfer.instruction, vault_key, recipient.address, recipient.amount)
}

/// Why the token engine refuses, if it does.
pub open spec fn token_failure(recipients: Seq<Recipient>, accounts: Seq<Address>) -> Option<
    ErrorCode,
> {
    if accounts.len() < FIRST_TOKEN_DESTINATION_INDEX + recipients.len() {
        Some(ErrorCode::InsufficientFunds)
    } else {
        None
    }
}

/// The token transfer that pays `recipient`, the `index`-th of its batch.
pub open spec fn token_transfer_for(
    vault_key: Address,
    accounts: Seq<Address>,
    recipient: Recipient,
    index: int,
) -> TokenTransfer {
    TokenTransfer {
        token_program: accounts[TOKEN_PROGRAM_INDEX as int],
        from: accounts[VAULT_TOKEN_ACCOUNT_INDEX as int],
        account_index: (FIRST_TOKEN_DESTINATION_INDEX + index) as usize,
        to: accounts[FIRST_TOKEN_DESTINATION_INDEX + index],
        authority: vault_key,
        amount: recipient.amount,
    }
}

/// Writes down the native transfers of a batch.
///
/// The `i`-th auxiliary account must be the `i`-th recipient's address. The
/// first recipient whose account is missing refuses the batch with
/// `InsufficientFunds`, the first whose account is another address with
/// `InvalidVault`. Otherwise there is one transfer per recipient, in list
/// order, each a system transfer of the recipient's amount from the vault.
pub fn execute_sol_transfers(ctx: &ExecuteBatch) -> (result: Result<Vec<NativeTransfer>, ErrorCode>)
    ensures
        match result {
            Ok(transfers) => {
                &&& native_failure(ctx.batch.recipients@, ctx.remaining_accounts@) is None
                &&& transfers@.len() == ctx.batch.recipients@.len()
                &&& forall|i: int|
                    0 <= i < transfers@.len() ==> is_native_transfer(
                        #[trigger] transfers@[i],
                        ctx.vault_key,
                        ctx.batch.recipients@[i],
                        i,
                    )
            },
            Err(e) => native_failure(ctx.batch.recipients@, ctx.remaining_accounts@) == Some(e),
        },
{
    let mut transfers: Vec<NativeTransfer> = Vec::new();
    let mut i: usize = 0;
    while i < ctx.batch.recipients.len()
        invariant
            i <= ctx.batch.recipients@.len(),
            i <= ctx.remaining_accounts@.len(),
            forall|j: int|
                0 <= j < i ==> #[trigger] ctx.remaining_accounts@[j]
                    == ctx.batch.recipients@[j].address,
            transfers@.len() == i,
            forall|j: int|
                0 <= j < i ==> is_native_transfer(
                    #[trigger] transfers@[j],
                    ctx.vault_key,
                    ctx.batch.recipients@[j],
                    j,
                ),
        decreases ctx.batch.recipients@.len() - i,
    {
        if i >= ctx.remaining_accounts.len() {
            return Err(ErrorCode::InsufficientFunds);
        }
        let recipient = &ctx.batch.recipients[i];
        if ctx.remaining_accounts[i] != recipient.address {
            return Err(ErrorCode::InvalidVault);
        }
        let instruction = system_transfer(&ctx.vault_key, &recipient.address, recipient.amount);
        transfers.push(
            NativeTransfer {
                account_index: i,
                to: recipient.address,
                lamports: recipient.amount,
                instruction,
            },
        );
        i += 1;
    }
    Ok(transfers)
}

/// Writes down the token transfers of a batch.
///
/// The auxiliary accounts start with the token program and the vault's token
/// account; the recipients' token accounts follow in list order. With fewer
/// than two more accounts than recipients the batch is refused with
/// `InsufficientFunds`. Otherwise there is one transfer per recipient, in
/// list order, of the recipient's amount from the vault's token account.
pub fn execute_token_transfers(ctx: &ExecuteBatch) -> (result: Result<
    Vec<TokenTransfer>,
    ErrorCode,
>)
    ensures
        match result {
            Ok(transfers) => {
                &&& token_failure(ctx.batch.recipients@, ctx.remaining_accounts@) is None
                &&& transfers@.len() == ctx.batch.recipients@.len()
                &&& forall|i: int|
                    0 <= i < transfers@.len() ==> #[trigger] transfers@[i] == token_transfer_for(
                        ctx.vault_key,
                        ctx.remaining_accounts@,
                        ctx.batch.recipients@[i],
                        i,
                    )
            },
            Err(e) => token_failure(ctx.batch.recipients@, ctx.remaining_accounts@) == Some(e),
        },
{
    let count: usize = ctx.batch.recipients.len();
    let supplied: usize = ctx.remaining_accounts.len();
    if supplied < FIRST_TOKEN_DESTINATION_INDEX || supplied - FIRST_TOKEN_DESTINATION_INDEX
        < count {
        return Err(ErrorCode::InsufficientFunds);
    }
    let token_program = ctx.remaining_accounts[TOKEN_PROGRAM_INDEX];
    let vault_token_account = ctx.remaining_accounts[VAULT_TOKEN_ACCOUNT_INDEX];
    let mut transfers: Vec<TokenTransfer> = Vec::new();
    let mut i: usize = 0;
    while i < count
        invariant
            count == ctx.batch.recipients@.len(),
            supplied == ctx.remaining_accounts@.len(),
            i <= count,
            FIRST_TOKEN_DESTINATION_INDEX + count <= supplied,
            token_program == ctx.remaining_accounts@[TOKEN_PROGRAM_INDEX as int],
            vault_token_account == ctx.remaining_accounts@[VAULT_TOKEN_ACCOUNT_INDEX as int],
            transfers@.len() == i,
            forall|j: int|
                0 <= j < i ==> #[trigger] transfers@[j] == token_transfer_for(
                    ctx.vault_key,
                    ctx.remaining_accounts@,
                    ctx.batch.recipients@[j],
                    j,
                ),
        decreases count - i,
    {
        let account_index: usize = FIRST_TOKEN_DESTINATION_INDEX + i;
        transfers.push(
            TokenTransfer {
                token_program,
                from: vault_token_account,
                account_index,
                to: ctx.remaining_accounts[account_index],
                authority: ctx.vault_key,
                amount: ctx.batch.recipients[i].amount,
            },
        );
        i += 1;
    }
    Ok(transfers)
}

} // verus!
