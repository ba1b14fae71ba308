//! Instruction for minting new tokens

use vstd::prelude::*;

use crate::account::{AccountMeta, Pubkey};
use crate::instruction::{
    append_account_metas, append_discriminator, append_u64_le, HookInterfaceInstruction,
    Instruction,
};

verus! {

/// First 8 bytes of the hash of `spl-hook-interface:mint-to`.
pub const MINT_TO_DISCRIMINATOR: [u8; 8] = [143, 74, 223, 72, 254, 24, 18, 53];

/// Instruction for minting new tokens
#[derive(Clone, Copy, Debug, PartialEq, Eq, Structural)]
pub struct MintTo {
    /// Amount of tokens to mint
    pub amount: u64,
}

impl HookInterfaceInstruction for MintTo {
    open spec fn spec_discriminator() -> Seq<u8> {
        MINT_TO_DISCRIMINATOR@
    }

    fn discriminator_bytes() -> (r: [u8; 8]) {
        MINT_TO_DISCRIMINATOR
    }
}

/// The wire bytes of a `MintTo` instruction: its discriminator followed by
/// the amount in little-endian order.
pub open spec fn spec_pack_mint_to(amount: u64) -> Seq<u8> {
    MINT_TO_DISCRIMINATOR@ + vstd::bytes::spec_u64_to_le_bytes(amount)
}

impl MintTo {
    /// Packs the instruction into a buffer
    pub fn pack(&self) -> (r: Vec<u8>)
        ensures
            r@ == spec_pack_mint_to(self.amount),
    {
        let mut buf: Vec<u8> = Vec::new();
        append_discriminator(&mut buf, &MINT_TO_DISCRIMINATOR);
        append_u64_le(&mut buf, self.amount);
        assert(buf@ =~= spec_pack_mint_to(self.amount));
        buf
    }

    /// Creates an `Execute` instruction, provided all of the additional
    /// required account metas
    pub fn execute_with_extra_account_metas(
        program_id: &Pubkey,
        mint_pubkey: &Pubkey,
        destination_pubkey: &Pubkey,
        authority_pubkey: &Pubkey,
        validate_state_pubkey: &Pubkey,
        additional_accounts: &[AccountMeta],
        amount: u64,
    ) -> (r: Instruction)
        ensures
            r.program_id@ == program_id@,
            r.data@ == spec_pack_mint_to(amount),
            r.accounts@.len() == 4 + additional_accounts@.len(),
            r.accounts@[0]@.key == mint_pubkey@,
            r.accounts@[1]@.key == destination_pubkey@,
            r.accounts@[2]@.key == authority_pubkey@,
            r.accounts@[3]@.key == validate_state_pubkey@,
            forall|i: int|
                0 <= i < 4 ==> !(#[trigger] r.accounts@[i])@.is_signer
                    && !r.accounts@[i]@.is_writable,
            r.accounts@.skip(4) == additional_accounts@,
    {
        let mut instruction = Self::execute(
            program_id,
            mint_pubkey,
            destination_pubkey,
            authority_pubkey,
            validate_state_pubkey,
            amount,
        );
        append_account_metas(&mut instruction.accounts, additional_accounts);
        assert(instruction.accounts@.skip(4) =~= additional_accounts@);
        instruction
    }

    /// Creates an `Execute` instruction, without the additional accounts
    pub fn execute(
        program_id: &Pubkey,
        mint_pubkey: &Pubkey,
        destination_pubkey: &Pubkey,
        authority_pubkey: &Pubkey,
        validate_state_pubkey: &Pubkey,
        amount: u64,
    ) -> (r: Instruction)
        ensures
            r.program_id@ == program_id@,
            r.data@ == spec_pack_mint_to(amount),
            r.accounts@.len() == 4,
            r.accounts@[0]@.key == mint_pubkey@,
            r.accounts@[1]@.key == destination_pubkey@,
            r.accounts@[2]@.key == authority_pubkey@,
            r.accounts@[3]@.key == validate_state_pubkey@,
            forall|i: int|
                0 <= i < 4 ==> !(#[trigger] r.accounts@[i])@.is_signer
                    && !r.accounts@[i]@.is_writable,
    {
        let data = MintTo { amount }.pack();
        let mut accounts: Vec<AccountMeta> = Vec::new();
        accounts.push(AccountMeta::new_readonly(*mint_pubkey, false));
        accounts.push(AccountMeta::new_readonly(*destination_pubkey, false));
        accounts.push(AccountMeta::new_readonly(*authority_pubkey, false));
        accounts.push(AccountMeta::new_readonly(*validate_state_pubkey, false));
        Instruction { program_id: *program_id, accounts, data }
    }
}

} // verus!
