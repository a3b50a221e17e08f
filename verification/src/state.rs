//! The two durable records: the vault and the batch.

use vstd::prelude::*;
use crate::address::Address;

verus! {

/// The largest number of recipients one batch may hold.
pub const MAX_RECIPIENTS: usize = 50;

/// Where a batch stands in its life. A batch starts `Pending` and moves
/// forward only: to `Executing` and then `Executed`, or to `Cancelled`.
#[derive(Clone, Copy, Debug, PartialEq, Eq, Structural)]
pub enum BatchStatus {
    Pending,
    Executing,
    Executed,
    Cancelled,
}

/// One payment of a batch: who is paid, how much, and a free-form note.
#[derive(Clone, Debug, PartialEq, Eq)]
pub struct Recipient {
    pub address: Address,
    pub amount: u64,
    pub memo: [u8; 32],
}

/// A custodial pool under one authority.
#[derive(Clone, Debug, PartialEq, Eq)]
pub struct PaymentVault {
    /// The only principal that may execute batches against this vault.
    pub authority: Address,
    /// The bump seed of the vault's derived address.
    pub bump: u8,
    /// Everything paid out through this vault so far.
    pub total_paid: u64,
    /// How many batches were ever created under this vault.
    pub batch_count: u64,
    pub is_active: bool,
}

/// One instruction to pay a fixed list of recipients.
#[derive(Clone, Debug, PartialEq, Eq)]
pub struct PaymentBatch {
    pub vault: Address,
    /// The only principal that may cancel this batch.
    pub creator: Address,
    pub batch_id: u64,
    pub recipient_count: u8,
    pub total_amount: u64,
    /// The token that is paid out; `None` pays in native currency.
    pub token_mint: Option<Address>,
    pub status: BatchStatus,
    pub created_at: i64,
    pub executed_at: Option<i64>,
    pub recipients: Vec<Recipient>,
}

/// The first seed of every vault's derived address: the bytes of "vault".
pub open spec fn vault_seed_prefix() -> Seq<u8> {
    seq![118u8, 97u8, 117u8, 108u8, 116u8]
}

impl PaymentVault {
    /// The seeds under which the vault signs its transfers: the word
    /// "vault", the authority's address, and the bump seed.
    pub fn signer_seeds(&self) -> (seeds: Vec<Vec<u8>>)
        ensures
            seeds@.len() == 3,
            seeds@[0]@ == vault_seed_prefix(),
            seeds@[1]@ == self.authority.bytes@,
            seeds@[2]@ == seq![self.bump],
    {
        let mut authority: Vec<u8> = Vec::new();
        let mut i: usize = 0;
        while i < 32
            invariant
                i <= 32,
                authority@ == self.authority.bytes@.take(i as int),
            decreases 32 - i,
        {
            authority.push(self.authority.bytes[i]);
            assert(self.authority.bytes@.take(i + 1) =~= self.authority.bytes@.take(i as int).push(
                self.authority.bytes@[i as int],
            ));
            i += 1;
        }
        assert(self.authority.bytes@.take(32) =~= self.authority.bytes@);
        let mut seeds: Vec<Vec<u8>> = Vec::new();
        seeds.push(vec![118u8, 97u8, 117u8, 108u8, 116u8]);
        seeds.push(authority);
        seeds.push(vec![self.bump]);
        seeds
    }
}

impl Default for PaymentVault {
    /// A blank record, as storage holds it before the vault is set up.
    fn default() -> (vault: PaymentVault)
        ensures
            vault.authority.is_zero(),
            vault.total_paid == 0,
            vault.batch_count == 0,
            vault.bump == 0,
            !vault.is_active,
    {
        PaymentVault {
            authority: Address::default(),
            bump: 0,
            total_paid: 0,
            batch_count: 0,
            is_active: false,
        }
    }
}

impl Default for PaymentBatch {
    /// A blank record, as storage holds it before the batch is created.
    fn default() -> (batch: PaymentBatch)
        ensures
            batch.vault.is_zero(),
            batch.creator.is_zero(),
            batch.status == BatchStatus::Pending,
            batch.recipients@.len() == 0,
            batch.recipient_count == 0,
            batch.total_amount == 0,
            batch.batch_id == 0,
            batch.created_at == 0,
            batch.token_mint is None,
            batch.executed_at is None,
    {
        PaymentBatch {
            vault: Address::default(),
            creator: Address::default(),
            batch_id: 0,
            recipient_count: 0,
            total_amount: 0,
            token_mint: None,
            status: BatchStatus::Pending,
            created_at: 0,
            executed_at: None,
            recipients: Vec::new(),
        }
    }
}

/// Whether a recipient list of this length may form a batch.
pub open spec fn valid_recipient_count(n: nat) -> bool {
    1 <= n <= MAX_RECIPIENTS
}

/// The sum of the amounts of a recipient list.
pub open spec fn total_of(recipients: Seq<Recipient>) -> nat
    decreases recipients.len(),
{
    if recipients.len() == 0 {
        0
    } else {
        total_of(recipients.drop_last()) + recipients.last().amount as nat
    }
}

/// A prefix of a list never sums to more than the list.
pub proof fn lemma_total_of_prefix(recipients: Seq<Recipient>, n: int)
    requires
        0 <= n <= recipients.len(),
    ensures
        total_of(recipients.take(n)) <= total_of(recipients),
    decreases recipients.len(),
{
    if n < recipients.len() {
        lemma_total_of_prefix(recipients.drop_last(), n);
        assert(recipients.drop_last().take(n) =~= recipients.take(n));
    } else {
        assert(recipients.take(n) =~= recipients);
    }
}

/// Taking one more recipient adds its amount.
pub proof fn lemma_total_of_step(recipients: Seq<Recipient>, n: int)
    requires
        0 <= n < recipients.len(),
    ensures
        total_of(recipients.take(n + 1)) == total_of(recipients.take(n)) + recipients[n].amount,
{
    assert(recipients.take(n + 1).drop_last() =~= recipients.take(n));
}

/// Adds up the amounts of a recipient list, or reports that the sum does not
/// fit in 64 bits.
pub fn checked_total(recipients: &Vec<Recipient>) -> (total: Option<u64>)
    ensures
        total_of(recipients@) <= u64::MAX ==> total == Some(total_of(recipients@) as u64),
        total_of(recipients@) > u64::MAX ==> total is None,
{
    let mut sum: u64 = 0;
    let mut i: usize = 0;
    while i < recipients.len()
        invariant
            i <= recipients.len(),
            sum == total_of(recipients@.take(i as int)),
        decreases recipients.len() - i,
    {
        proof {
            lemma_total_of_step(recipients@, i as int);
            lemma_total_of_prefix(recipients@, i + 1);
        }
        match sum.checked_add(recipients[i].amount) {
            Some(next) => {
                sum = next;
            },
            None => {
                return None;
            },
        }
        i += 1;
    }
    assert(recipients@.take(i as int) =~= recipients@);
    Some(sum)
}

impl PaymentBatch {
    /// What holds of every batch that `create_batch` has filled, at every
    /// moment of its life.
    pub open spec fn wf(&self) -> bool {
        &&& valid_recipient_count(self.recipients@.len())
        &&& self.recipient_count == self.recipients@.len()
        &&& self.total_amount == total_of(self.recipients@)
        &&& (self.executed_at is Some <==> self.status == BatchStatus::Executed)
    }
}

} // verus!
