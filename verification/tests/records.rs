use bulk_payment::{
    checked_total, Address, BatchStatus, ErrorCode, PaymentBatch, PaymentVault, Recipient,
    MAX_RECIPIENTS,
};

fn recipient(n: u8, amount: u64) -> Recipient {
    Recipient { address: Address::new([n; 32]), amount, memo: [0; 32] }
}

#[test]
fn addresses_compare_by_bytes() {
    let a = Address::new([7; 32]);
    let b = Address::new([7; 32]);
    assert_eq!(a, b);
    for i in 0..32 {
        let mut bytes = [7u8; 32];
        bytes[i] = 8;
        assert_ne!(a, Address::new(bytes));
    }
    assert_eq!(a.to_bytes(), [7; 32]);
    assert_eq!(Address::default(), Address::new([0; 32]));
}

#[test]
fn checked_total_adds_amounts() {
    assert_eq!(checked_total(&vec![]), Some(0));
    assert_eq!(checked_total(&vec![recipient(1, 10), recipient(2, 20), recipient(3, 30)]), Some(60));
    assert_eq!(checked_total(&vec![recipient(1, u64::MAX)]), Some(u64::MAX));
    assert_eq!(checked_total(&vec![recipient(1, u64::MAX - 5), recipient(2, 5)]), Some(u64::MAX));
}

#[test]
fn checked_total_reports_overflow() {
    assert_eq!(checked_total(&vec![recipient(1, u64::MAX), recipient(2, 1)]), None);
    assert_eq!(checked_total(&vec![recipient(1, 1), recipient(2, u64::MAX), recipient(3, 0)]), None);
    assert_eq!(
        checked_total(&vec![recipient(1, u64::MAX), recipient(2, u64::MAX), recipient(3, 2)]),
        None
    );
}

#[test]
fn blank_records() {
    let batch = PaymentBatch::default();
    assert_eq!(batch.status, BatchStatus::Pending);
    assert!(batch.recipients.is_empty());
    assert_eq!(batch.recipient_count, 0);
    assert_eq!(batch.total_amount, 0);
    assert_eq!(batch.token_mint, None);
    assert_eq!(batch.executed_at, None);
    let vault = PaymentVault::default();
    assert_eq!(vault.total_paid, 0);
    assert_eq!(vault.batch_count, 0);
    assert!(!vault.is_active);
}

#[test]
fn at_most_fifty_recipients() {
    assert_eq!(MAX_RECIPIENTS, 50);
}

#[test]
fn signer_seeds_of_a_vault() {
    let mut bytes = [0u8; 32];
    for (i, b) in bytes.iter_mut().enumerate() {
        *b = i as u8;
    }
    let vault = PaymentVault {
        authority: Address::new(bytes),
        bump: 253,
        total_paid: 0,
        batch_count: 0,
        is_active: true,
    };
    let seeds = vault.signer_seeds();
    assert_eq!(seeds, vec![b"vault".to_vec(), bytes.to_vec(), vec![253]]);
}

#[test]
fn error_messages() {
    assert_eq!(ErrorCode::InvalidRecipientCount.message(), "Invalid recipient count (must be 1-50)");
    assert_eq!(ErrorCode::InvalidBatchStatus.message(), "Invalid batch status for this operation");
    assert_eq!(ErrorCode::InvalidVault.message(), "Invalid vault");
    assert_eq!(ErrorCode::CannotCancelExecutedBatch.message(), "Cannot cancel executed batch");
    assert_eq!(ErrorCode::Unauthorized.message(), "Unauthorized");
    assert_eq!(ErrorCode::InsufficientFunds.message(), "Insufficient funds");
    assert_eq!(ErrorCode::ArithmeticOverflow.message(), "Arithmetic overflow");
}
