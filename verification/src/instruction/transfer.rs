//! Instruction for transferring tokens

use vstd::prelude::*;

use crate::account::{AccountMeta, Pubkey};
use crate::instruction::{
    append_account_metas, append_discriminator, append_u64_le, HookInterfaceInstruction,
    Instruction,
};

verus! {

/// First 8 bytes of the hash of `spl-hook-interface:transfer`.
pub const TRANSFER_DISCRIMINATOR: [u8; 8] = [31, 159, 135, 240, 172, 53, 179, 104];

/// Instruction for transferring tokens
#[derive(Clone, Copy, Debug, PartialEq, Eq, Structural)]
pub struct Transfer {
    /// Amount of tokens to transfer
    pub amount: u64,
}

impl HookInterfaceInstruction for Transfer {
    open spec fn spec_discriminator() -> Seq<u8> {
        TRANSFER_DISCRIMINATOR@
    }

    fn discriminator_bytes() -> (r: [u8; 8]) {
        TRANSFER_DISCRIMINATOR
    }
}

/// The wire bytes of a `Transfer` instruction: its discriminator followed
/// by the amount in little-endian order.
pub open spec fn spec_pack_transfer(amount: u64) -> Seq<u8> {
    TRANSFER_DISCRIMINATOR@ + vstd::bytes::spec_u64_to_le_bytes(amount)
}

impl Transfer {
    /// Packs the instruction into a buffer
    pub fn pack(&self) -> (r: Vec<u8>)
        ensures
            r@ == spec_pack_transfer(self.amount),
    {
        let mut buf: Vec<u8> = Vec::new();
        append_discriminator(&mut buf, &TRANSFER_DISCRIMINATOR);
        append_u64_le(&mut buf, self.amount);
        assert(buf@ =~= spec_pack_transfer(self.amount));
        buf
    }

    /// Creates an `Execute` instruction, provided all of the additional
    /// required account metas
    pub fn execute_with_extra_account_metas(
        program_id: &Pubkey,
        source_pubkey: &Pubkey,
        mint_pubkey: &Pubkey,
        destination_pubkey: &Pubkey,
        authority_pubkey: &Pubkey,
        validate_state_pubkey: &Pubkey,
        additional_accounts: &[AccountMeta],
        amount: u64,
    ) -> (r: Instruction)
        ensures
            r.program_id@ == program_id@,
            r.data@ == spec_pack_transfer(amount),
            r.accounts@.len() == 5 + additional_accounts@.len(),
            r.accounts@[0]@.key == source_pubkey@,
            r.accounts@[1]@.key == mint_pubkey@,
            r.accounts@[2]@.key == destination_pubkey@,
            r.accounts@[3]@.key == authority_pubkey@,
            r.accounts@[4]@.key == validate_state_pubkey@,
            forall|i: int|
                0 <= i < 5 ==> !(#[trigger] r.accounts@[i])@.is_signer
                    && !r.accounts@[i]@.is_writable,
            r.accounts@.skip(5) == additional_accounts@,
    {
        let mut instruction = Self::execute(
            program_id,
            source_pubkey,
            mint_pubkey,
            destination_pubkey,
            authority_pubkey,
            validate_state_pubkey,
            amount,
        );
        append_account_metas(&mut instruction.accounts, additional_accounts);
        assert(instruction.accounts@.skip(5) =~= additional_accounts@);
        instruction
    }

    /// Creates an `Execute` instruction, without the additional accounts
    pub fn execute(
        program_id: &Pubkey,
        source_pubkey: &Pubkey,
        mint_pubkey: &Pubkey,
        destination_pubkey: &Pubkey,
        authority_pubkey: &Pubkey,
        validate_state_pubkey: &Pubkey,
        amount: u64,
    ) -> (r: Instruction)
        ensures
            r.program_id@ == program_id@,
            r.data@ == spec_pack_transfer(amount),
            r.accounts@.len() == 5,
            r.accounts@[0]@.key == source_pubkey@,
            r.accounts@[1]@.key == mint_pubkey@,
            r.accounts@[2]@.key == destination_pubkey@,
            r.accounts@[3]@.key == authority_pubkey@,
            r.accounts@[4]@.key == validate_state_pubkey@,
            forall|i: int|
                0 <= i < 5 ==> !(#[trigger] r.accounts@[i])@.is_signer
                    && !r.accounts@[i]@.is_writable,
    {
        let data = Transfer { amount }.pack();
        let mut accounts: Vec<AccountMeta> = Vec::new();
        accounts.push(AccountMeta::new_readonly(*source_pubkey, false));
        accounts.push(AccountMeta::new_readonly(*mint_pubkey, false));
        accounts.push(AccountMeta::new_readonly(*destination_pubkey, false));
        accounts.push(AccountMeta::new_readonly(*authority_pubkey, false));
        accounts.push(AccountMeta::new_readonly(*validate_state_pubkey, false));
        Instruction { program_id: *program_id, accounts, data }
    }
}

} // verus!
