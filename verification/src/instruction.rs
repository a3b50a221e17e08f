//! The message that asks the system program to move native currency.

use vstd::prelude::*;
use vstd::bytes::spec_u64_to_le_bytes;
use anchor_lang::solana_program::pubkey::Pubkey;
use anchor_lang::solana_program::system_instruction;
use crate::address::Address;

verus! {

/// One account that an instruction touches, and how.
#[derive(Clone, Copy, Debug, PartialEq, Eq)]
pub struct AccountMeta {
    pub pubkey: Address,
    pub is_signer: bool,
    pub is_writable: bool,
}

/// A call of a program: which program, on which accounts, with which data.
#[derive(Clone, Debug, PartialEq, Eq)]
pub struct Instruction {
    pub program_id: Address,
    pub accounts: Vec<AccountMeta>,
    pub data: Vec<u8>,
}

/// The data of a system transfer: the number of the transfer instruction
/// and the amount, both little-endian.
pub open spec fn system_transfer_data(lamports: u64) -> Seq<u8> {
    seq![2u8, 0u8, 0u8, 0u8] + spec_u64_to_le_bytes(lamports)
}

/// Whether `instruction` asks the system program, whose address is all
/// zero bytes, to move `lamports` from `from`, which signs, to `to`.
pub open spec fn is_system_transfer(
    instruction: Instruction,
    from: Address,
    to: Address,
    lamports: u64,
) -> bool {
    &&& instruction.program_id.is_zero()
    &&& instruction.accounts@ == seq![
        AccountMeta { pubkey: from, is_signer: true, is_writable: true },
        AccountMeta { pubkey: to, is_signer: false, is_writable: true },
    ]
    &&& instruction.data@ == system_transfer_data(lamports)
}

/// Builds a system transfer with `system_instruction::transfer` of
/// `solana_program` and copies its fields out. Not proved, taken from that
/// function's source: the program is the system program, the accounts are
/// the sender as a writable signer and then the receiver as writable, and
/// the data is the serialized `SystemInstruction::Transfer`, its variant
/// number as four bytes followed by the amount as eight.
#[verifier::external_body]
pub(crate) fn system_transfer(from: &Address, to: &Address, lamports: u64) -> (ix: Instruction)
    ensures
        is_system_transfer(ix, *from, *to, lamports),
{
    let built = system_instruction::transfer(
        &Pubkey::new_from_array(from.bytes),
        &Pubkey::new_from_array(to.bytes),
        lamports,
    );
    let mut accounts = Vec::new();
    for meta in built.accounts.iter() {
        let pubkey = Address { bytes: meta.pubkey.to_bytes() };
        accounts.push(AccountMeta { pubkey, is_signer: meta.is_signer, is_writable: meta.is_writable });
    }
    Instruction { program_id: Address { bytes: built.program_id.to_bytes() }, accounts, data: built.data }
}

} // verus!
