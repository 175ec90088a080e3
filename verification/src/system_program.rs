//! The request by which the ledger's system program is asked to move
//! balance from one account to another.

use vstd::prelude::*;
use anchor_lang::solana_program::pubkey::Pubkey;
use anchor_lang::solana_program::system_instruction;
use crate::identity::Identity;

verus! {

/// One account that an instruction names, and what the instruction may do
/// with it.
#[derive(Clone, Copy, Debug, PartialEq, Eq)]
pub struct AccountRef {
    pub key: Identity,
    /// The account must have signed the request.
    pub is_signer: bool,
    /// The instruction may change the account.
    pub is_writable: bool,
}

/// A request to the ledger's system program to move balance, as the plain
/// values that are sent: the program to run, the accounts it is given, and
/// the bytes it reads the amount from.
#[derive(Clone, Debug, PartialEq, Eq)]
pub struct TransferInstruction {
    pub program_id: Identity,
    pub accounts: Vec<AccountRef>,
    pub data: Vec<u8>,
}

/// The bytes by which the system program is told to transfer `lamports`.
pub uninterp spec fn system_transfer_data(lamports: u64) -> Seq<u8>;

impl TransferInstruction {
    /// Whether this is the system program's transfer of `lamports` from
    /// `from`, which signs and is changed, to `to`, which is changed.
    pub open spec fn moves(self, from: Identity, to: Identity, lamports: u64) -> bool {
        &&& self.program_id.bytes@ == Seq::new(32, |i: int| 0u8)
        &&& self.accounts@.len() == 2
        &&& self.accounts@[0] == (AccountRef { key: from, is_signer: true, is_writable: true })
        &&& self.accounts@[1] == (AccountRef { key: to, is_signer: false, is_writable: true })
        &&& self.data@ == system_transfer_data(lamports)
    }
}

/// Builds the transfer instruction with `system_instruction::transfer` of
/// the Solana SDK and hands back its three parts.
///
/// Taken on trust from that function's source: the instruction is addressed
/// to the system program, whose address is thirty-two zero bytes; it names
/// two accounts, first `from` as a writable signer, then `to` as writable and
/// not a signer; and its data depend on `lamports` alone.
#[verifier::external_body]
#[allow(deprecated)]
pub(crate) fn system_transfer(from: &Identity, to: &Identity, lamports: u64) -> (r:
    TransferInstruction)
    ensures
        r.program_id.bytes@ == Seq::new(32, |i: int| 0u8),
        r.accounts@.len() == 2,
        r.accounts@[0] == (AccountRef { key: *from, is_signer: true, is_writable: true }),
        r.accounts@[1] == (AccountRef { key: *to, is_signer: false, is_writable: true }),
        r.data@ == system_transfer_data(lamports),
{
    let payer = Pubkey::new_from_array(from.bytes);
    let payee = Pubkey::new_from_array(to.bytes);
    let ix = system_instruction::transfer(&payer, &payee, lamports);
    TransferInstruction {
        program_id: Identity { bytes: ix.program_id.to_bytes() },
        accounts: ix.accounts.iter().map(|m| AccountRef {
            key: Identity { bytes: m.pubkey.to_bytes() },
            is_signer: m.is_signer,
            is_writable: m.is_writable,
        }).collect(),
        data: ix.data,
    }
}

} // verus!
