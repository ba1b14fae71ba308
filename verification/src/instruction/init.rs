//! Instruction for initializing extra account metas in the validation account

use vstd::prelude::*;

use crate::account::{AccountMeta, Pubkey};
use crate::instruction::{
    append_account_metas, append_discriminator, HookInterfaceInstruction, Instruction,
};

verus! {

/// First 8 bytes of the hash of
/// `spl-hook-interface:initialize-extra-account-metas`.
pub const INITIALIZE_EXTRA_ACCOUNT_METAS_DISCRIMINATOR: [u8; 8] = [
    233, 153, 239, 113, 226, 61, 67, 134,
];

/// Instruction for initializing extra account metas in the validation account
#[derive(Clone, Copy, Debug, PartialEq, Eq, Structural)]
pub struct InitializeExtraAccountMetas {}

impl HookInterfaceInstruction for InitializeExtraAccountMetas {
    open spec fn spec_discriminator() -> Seq<u8> {
        INITIALIZE_EXTRA_ACCOUNT_METAS_DISCRIMINATOR@
    }

    fn discriminator_bytes() -> (r: [u8; 8]) {
        INITIALIZE_EXTRA_ACCOUNT_METAS_DISCRIMINATOR
    }
}

/// The wire bytes of an `InitializeExtraAccountMetas` instruction: its
/// discriminator alone, with no payload.
pub open spec fn spec_pack_init() -> Seq<u8> {
    INITIALIZE_EXTRA_ACCOUNT_METAS_DISCRIMINATOR@
}

impl InitializeExtraAccountMetas {
    /// Packs the instruction into a buffer
    pub fn pack(&self) -> (r: Vec<u8>)
        ensures
            r@ == spec_pack_init(),
    {
        let mut buf: Vec<u8> = Vec::new();
        append_discriminator(&mut buf, &INITIALIZE_EXTRA_ACCOUNT_METAS_DISCRIMINATOR);
        assert(buf@ =~= spec_pack_init());
        buf
    }

    /// Creates an `InitializeExtraAccountMetas` instruction.
    pub fn initialize_extra_account_metas(
        program_id: &Pubkey,
        extra_account_metas_pubkey: &Pubkey,
        mint_pubkey: &Pubkey,
        authority_pubkey: &Pubkey,
        system_program_pubkey: &Pubkey,
        additional_accounts: &[AccountMeta],
    ) -> (r: Instruction)
        ensures
            r.program_id@ == program_id@,
            r.data@ == spec_pack_init(),
            r.accounts@.len() == 4 + additional_accounts@.len(),
            r.accounts@[0]@.key == extra_account_metas_pubkey@,
            r.accounts@[0]@.is_writable,
            !r.accounts@[0]@.is_signer,
            r.accounts@[1]@.key == mint_pubkey@,
            !r.accounts@[1]@.is_writable,
            !r.accounts@[1]@.is_signer,
            r.accounts@[2]@.key == authority_pubkey@,
            !r.accounts@[2]@.is_writable,
            r.accounts@[2]@.is_signer,
            r.accounts@[3]@.key == system_program_pubkey@,
            !r.accounts@[3]@.is_writable,
            !r.accounts@[3]@.is_signer,
            r.accounts@.skip(4) == additional_accounts@,
    {
        let data = InitializeExtraAccountMetas {}.pack();

        let mut accounts: Vec<AccountMeta> = Vec::new();
        accounts.push(AccountMeta::new(*extra_account_metas_pubkey, false));
        accounts.push(AccountMeta::new_readonly(*mint_pubkey, false));
        accounts.push(AccountMeta::new_readonly(*authority_pubkey, true));
        accounts.push(AccountMeta::new_readonly(*system_program_pubkey, false));
        append_account_metas(&mut accounts, additional_accounts);
        assert(accounts@.skip(4) =~= additional_accounts@);

        Instruction { program_id: *program_id, accounts, data }
    }
}

} // verus!
