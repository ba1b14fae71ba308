//! The example program's state processor.

use vstd::prelude::*;

use crate::account::{AccountInfo, AccountInfoV, AccountMetaV, Pubkey};
use crate::error::{hook_error, HookInterfaceError, ProgramError};
use crate::example::instruction::{spec_unpack, MyInstruction};
use crate::instruction::mint_to::MINT_TO_DISCRIMINATOR;
use crate::instruction::transfer::TRANSFER_DISCRIMINATOR;
use crate::resolver::{
    check_extra_account_metas, init_with_account_infos, spec_accounts_match, spec_infos_metas,
    spec_metas_value, spec_unpack_metas, unpack_account_metas,
};
use crate::{
    create_validation_account_checked, get_extra_account_metas_address, pda_of,
    spec_create_validation_account, spec_seeds,
};

verus! {

/// The validation a hooked call performs: the supplied validation account
/// must sit at the address derived from the mint, the stored descriptor
/// list under the instruction's discriminator must parse, and the supplied
/// extra accounts must agree with it, in order.
pub open spec fn spec_validate_with_stored(
    program_id: Seq<u8>,
    mint: AccountInfoV,
    validation: AccountInfoV,
    disc: Seq<u8>,
    extra: Seq<AccountInfoV>,
) -> Result<(), ProgramError> {
    match pda_of(spec_seeds(mint.key), program_id) {
        None => Err(ProgramError::InvalidSeeds),
        Some(derived) => {
            if derived.0 != validation.key {
                Err(ProgramError::InvalidSeeds)
            } else {
                match spec_unpack_metas(validation.data, disc) {
                    Err(e) => Err(e),
                    Ok(stored) => {
                        if spec_accounts_match(stored, extra) {
                            Ok(())
                        } else {
                            Err(hook_error(HookInterfaceError::IncorrectAccount))
                        }
                    },
                }
            }
        },
    }
}

/// What processing a `MintTo` instruction returns, for the account list
/// `[mint, destination, authority, validation account, extra accounts...]`.
pub open spec fn spec_process_mint_to(program_id: Seq<u8>, accounts: Seq<AccountInfoV>) -> Result<
    (),
    ProgramError,
> {
    if accounts.len() < 4 {
        Err(ProgramError::NotEnoughAccountKeys)
    } else {
        spec_validate_with_stored(
            program_id,
            accounts[0],
            accounts[3],
            MINT_TO_DISCRIMINATOR@,
            accounts.skip(4),
        )
    }
}

/// What processing a `Transfer` instruction returns, for the account list
/// `[source, mint, destination, authority, validation account, extra
/// accounts...]`.
pub open spec fn spec_process_transfer(program_id: Seq<u8>, accounts: Seq<AccountInfoV>) -> Result<
    (),
    ProgramError,
> {
    if accounts.len() < 5 {
        Err(ProgramError::NotEnoughAccountKeys)
    } else {
        spec_validate_with_stored(
            program_id,
            accounts[1],
            accounts[4],
            TRANSFER_DISCRIMINATOR@,
            accounts.skip(5),
        )
    }
}

/// What processing an `Arbitrary` instruction returns, for the account
/// list `[mint, authority]`.
pub open spec fn spec_process_arbitrary(accounts: Seq<AccountInfoV>) -> Result<(), ProgramError> {
    if accounts.len() < 2 {
        Err(ProgramError::NotEnoughAccountKeys)
    } else {
        Ok(())
    }
}

/// Checks the derived validation address and the stored descriptor list
/// under `disc` against the accounts supplied past the fixed positions.
fn validate_with_stored(
    program_id: &Pubkey,
    mint_info: &AccountInfo,
    validation_info: &AccountInfo,
    disc: &[u8; 8],
    extra: &[AccountInfo],
) -> (r: Result<(), ProgramError>)
    ensures
        r == spec_validate_with_stored(
            program_id@,
            mint_info@,
            validation_info@,
            disc@,
            extra.deep_view(),
        ),
{
    let expected = match get_extra_account_metas_address(&mint_info.key, program_id) {
        None => {
            return Err(ProgramError::InvalidSeeds);
        },
        Some(p) => p,
    };
    if !crate::account::pubkey_eq(&expected, &validation_info.key) {
        return Err(ProgramError::InvalidSeeds);
    }
    let stored = match unpack_account_metas(validation_info.data.as_slice(), disc) {
        Err(e) => {
            return Err(e);
        },
        Ok(s) => s,
    };
    let stored_slice = stored.as_slice();
    proof {
        assert(stored_slice.deep_view() =~= stored.deep_view());
        assert(spec_unpack_metas(validation_info@.data, disc@) == Ok::<
            Seq<AccountMetaV>,
            ProgramError,
        >(stored.deep_view()));
        assert(pda_of(spec_seeds(mint_info@.key), program_id@) matches Some(q) && q.0
            == validation_info@.key);
    }
    match check_extra_account_metas(stored_slice, extra) {
        Ok(u) => {
            proof {
                assert(spec_accounts_match(stored.deep_view(), extra.deep_view()));
                assert(spec_validate_with_stored(
                    program_id@,
                    mint_info@,
                    validation_info@,
                    disc@,
                    extra.deep_view(),
                ) == Ok::<(), ProgramError>(()));
            }
            Ok(())
        },
        Err(e) => {
            proof {
                assert(!spec_accounts_match(stored.deep_view(), extra.deep_view()));
                assert(spec_validate_with_stored(
                    program_id@,
                    mint_info@,
                    validation_info@,
                    disc@,
                    extra.deep_view(),
                ) == Err::<(), ProgramError>(e));
            }
            Err(e)
        },
    }
}

/// Processes a `MintTo` instruction: checks the validation account and the
/// supplied extra accounts, then runs the program's own minting logic.
pub fn process_mint_to(program_id: &Pubkey, accounts: &[AccountInfo], amount: u64) -> (r: Result<
    (),
    ProgramError,
>)
    ensures
        r == spec_process_mint_to(program_id@, accounts.deep_view()),
{
    if accounts.len() < 4 {
        return Err(ProgramError::NotEnoughAccountKeys);
    }
    let extra = accounts.split_at(4).1;
    proof {
        assert(extra.deep_view() =~= accounts.deep_view().skip(4));
    }
    validate_with_stored(program_id, &accounts[0], &accounts[3], &MINT_TO_DISCRIMINATOR, extra)
}

/// Processes a `Transfer` instruction: checks the validation account and
/// the supplied extra accounts, then runs the program's own transfer
/// logic.
pub fn process_transfer(program_id: &Pubkey, accounts: &[AccountInfo], amount: u64) -> (r: Result<
    (),
    ProgramError,
>)
    ensures
        r == spec_process_transfer(program_id@, accounts.deep_view()),
{
    if accounts.len() < 5 {
        return Err(ProgramError::NotEnoughAccountKeys);
    }
    let extra = accounts.split_at(5).1;
    proof {
        assert(extra.deep_view() =~= accounts.deep_view().skip(5));
    }
    validate_with_stored(program_id, &accounts[1], &accounts[4], &TRANSFER_DISCRIMINATOR, extra)
}

/// Processes an `Arbitrary` instruction, specific to this program: only
/// the presence of its two accounts is checked.
pub fn process_arbitrary(program_id: &Pubkey, accounts: &[AccountInfo], arg: u8) -> (r: Result<
    (),
    ProgramError,
>)
    ensures
        r == spec_process_arbitrary(accounts.deep_view()),
{
    if accounts.len() < 2 {
        return Err(ProgramError::NotEnoughAccountKeys);
    }
    Ok(())
}

/// Whether two account lists hold the same accounts, value for value.
pub open spec fn same_accounts(a: Seq<AccountInfo>, b: Seq<AccountInfo>) -> bool {
    a.len() == b.len() && (forall|i: int| 0 <= i < a.len() ==> (#[trigger] a[i])@ == b[i]@)
}

/// What processing an `Init` instruction leaves behind, for the account
/// list `[validation account, mint, authority, system program, three
/// accounts for minting, three accounts for transferring]`: on success the
/// validation account is created as the guard prescribes and now stores
/// the two descriptor lists; on failure nothing is changed.
pub open spec fn spec_init_result(
    pid: Seq<u8>,
    before: Seq<AccountInfo>,
    after: Seq<AccountInfo>,
    r: Result<(), ProgramError>,
) -> bool {
    if before.len() < 10 {
        r == Err::<(), ProgramError>(ProgramError::NotEnoughAccountKeys) && same_accounts(after, before)
    } else {
        match spec_create_validation_account(
            pid,
            before[1]@,
            before[0]@,
            before[2]@,
            seq![3usize, 3usize],
        ) {
            Err(e) => r == Err::<(), ProgramError>(e) && same_accounts(after, before),
            Ok(allocated) => {
                &&& r == Ok::<(), ProgramError>(())
                &&& after.len() == before.len()
                &&& (forall|i: int| 1 <= i < before.len() ==> (#[trigger] after[i])@ == before[i]@)
                &&& after[0]@.key == before[0]@.key
                &&& after[0]@.is_signer == before[0]@.is_signer
                &&& after[0]@.is_writable == before[0]@.is_writable
                &&& after[0]@.owner == pid
                &&& after[0]@.data.len() == allocated.data.len()
                &&& spec_unpack_metas(after[0]@.data, MINT_TO_DISCRIMINATOR@) == Ok::<
                    Seq<AccountMetaV>,
                    ProgramError,
                >(spec_infos_metas(Seq::new(3, |k: int| before[4 + k]@)))
                &&& spec_unpack_metas(after[0]@.data, TRANSFER_DISCRIMINATOR@) == Ok::<
                    Seq<AccountMetaV>,
                    ProgramError,
                >(spec_infos_metas(Seq::new(3, |k: int| before[7 + k]@)))
            },
        }
    }
}

/// Processes an `Init` instruction: creates the validation account through
/// the creation guard, then writes the accounts required for minting and
/// the accounts required for transferring into its first two entries.
pub fn process_init(program_id: &Pubkey, accounts: &mut Vec<AccountInfo>) -> (r: Result<
    (),
    ProgramError,
>)
    ensures
        spec_init_result(program_id@, old(accounts)@, final(accounts)@, r),
{
    if accounts.len() < 10 {
        return Err(ProgramError::NotEnoughAccountKeys);
    }
    let ghost before = accounts@;
    let mut validation = accounts.remove(0);
    let counts: [usize; 2] = [3, 3];
    proof {
        assert(counts@ =~= seq![3usize, 3usize]);
    }
    // Create the validation account with checks
    let created = create_validation_account_checked(
        program_id,
        &accounts[0],
        &mut validation,
        &accounts[1],
        counts.as_slice(),
    );
    let ghost spec_created = spec_create_validation_account(
        program_id@,
        before[1]@,
        before[0]@,
        before[2]@,
        seq![3usize, 3usize],
    );
    match created {
        Err(e) => {
            accounts.insert(0, validation);
            proof {
                assert(same_accounts(accounts@, before));
            }
            return Err(e);
        },
        Ok(u) => {
        },
    }
    proof {
        // The guard sized the account at two entries of three descriptors
        assert(crate::spec_total_size_from(counts@, 2, 236) == Ok::<int, ProgramError>(236));
        assert(crate::spec_total_size_from(counts@, 1, 118) == Ok::<int, ProgramError>(236));
        assert(crate::spec_total_size_from(counts@, 0, 0) == Ok::<int, ProgramError>(236));
        assert(spec_created matches Ok(a) && a.data =~= Seq::new(236, |i: int| 0u8));
        assert(validation@.data == Seq::new(236, |i: int| 0u8));
    }
    let ghost zeros = validation@.data;

    // Write the accounts required for minting
    let accounts_slice = accounts.as_slice();
    let minting = vstd::slice::slice_subrange(accounts_slice, 3, 6);
    let ghost ms1 = spec_infos_metas(minting.deep_view());
    proof {
        assert(minting.deep_view() =~= Seq::new(3, |k: int| before[4 + k]@));
        vstd::bytes::lemma_auto_spec_u32_to_from_le_bytes();
        assert(crate::resolver::wf_metas(ms1));
        crate::resolver::lemma_records_len(ms1);
        assert(spec_metas_value(ms1).len() == 106);
        assert(MINT_TO_DISCRIMINATOR@ != crate::tlv::zero_disc()) by {
            assert(MINT_TO_DISCRIMINATOR@[0] == 143);
        }
        crate::tlv::lemma_tlv_insert_into_zeros(
            zeros,
            MINT_TO_DISCRIMINATOR@,
            spec_metas_value(ms1),
        );
    }
    let r1 = init_with_account_infos(&mut validation.data, &MINT_TO_DISCRIMINATOR, minting);
    match r1 {
        Err(e) => {
            proof {
                assert(false);
            }
            accounts.insert(0, validation);
            return Err(e);
        },
        Ok(u) => {
        },
    }
    let ghost d1 = validation@.data;

    // Write the accounts required for transferring
    let accounts_slice = accounts.as_slice();
    let transferring = vstd::slice::slice_subrange(accounts_slice, 6, 9);
    let ghost ms2 = spec_infos_metas(transferring.deep_view());
    proof {
        assert(transferring.deep_view() =~= Seq::new(3, |k: int| before[7 + k]@));
        vstd::bytes::lemma_auto_spec_u32_to_from_le_bytes();
        assert(crate::resolver::wf_metas(ms2));
        crate::resolver::lemma_records_len(ms2);
        assert(spec_metas_value(ms2).len() == 106);
        assert(TRANSFER_DISCRIMINATOR@ != crate::tlv::zero_disc()) by {
            assert(TRANSFER_DISCRIMINATOR@[0] == 31);
        }
        assert(MINT_TO_DISCRIMINATOR@ != TRANSFER_DISCRIMINATOR@) by {
            assert(MINT_TO_DISCRIMINATOR@[0] == 143);
            assert(TRANSFER_DISCRIMINATOR@[0] == 31);
        }
        crate::tlv::lemma_tlv_insert_after_first(
            zeros,
            MINT_TO_DISCRIMINATOR@,
            spec_metas_value(ms1),
            TRANSFER_DISCRIMINATOR@,
            spec_metas_value(ms2),
        );
    }
    let r2 = init_with_account_infos(&mut validation.data, &TRANSFER_DISCRIMINATOR, transferring);
    match r2 {
        Err(e) => {
            proof {
                assert(false);
            }
            accounts.insert(0, validation);
            return Err(e);
        },
        Ok(u) => {
        },
    }
    let ghost d2 = validation@.data;
    proof {
        crate::tlv::lemma_tlv_insert_get(d1, TRANSFER_DISCRIMINATOR@, spec_metas_value(ms2), d2);
        crate::tlv::lemma_tlv_insert_get(zeros, MINT_TO_DISCRIMINATOR@, spec_metas_value(ms1), d1);
        crate::tlv::lemma_tlv_insert_preserves_get(
            d1,
            TRANSFER_DISCRIMINATOR@,
            spec_metas_value(ms2),
            d2,
            MINT_TO_DISCRIMINATOR@,
        );
        crate::resolver::lemma_parse_serialized(ms1);
        crate::resolver::lemma_parse_serialized(ms2);
    }
    accounts.insert(0, validation);
    Ok(())
}

/// Processes an instruction: unpacks it and dispatches on its variant.
pub fn process(program_id: &Pubkey, accounts: &mut Vec<AccountInfo>, input: &[u8]) -> (r: Result<
    (),
    ProgramError,
>)
    ensures
        match spec_unpack(input@) {
            Err(e) => r == Err::<(), ProgramError>(e) && final(accounts)@ == old(accounts)@,
            Ok(ins) => match ins {
                MyInstruction::Init => spec_init_result(
                    program_id@,
                    old(accounts)@,
                    final(accounts)@,
                    r,
                ),
                MyInstruction::MintTo { amount } => r == spec_process_mint_to(
                    program_id@,
                    old(accounts).deep_view(),
                ) && final(accounts)@ == old(accounts)@,
                MyInstruction::Transfer { amount } => r == spec_process_transfer(
                    program_id@,
                    old(accounts).deep_view(),
                ) && final(accounts)@ == old(accounts)@,
                MyInstruction::Arbitrary { arg } => r == spec_process_arbitrary(
                    old(accounts).deep_view(),
                ) && final(accounts)@ == old(accounts)@,
            },
        },
{
    let instruction = match MyInstruction::unpack(input) {
        Err(e) => {
            return Err(e);
        },
        Ok(i) => i,
    };
    match instruction {
        MyInstruction::Init => process_init(program_id, accounts),
        MyInstruction::MintTo { amount } => process_mint_to(
            program_id,
            accounts.as_slice(),
            amount,
        ),
        MyInstruction::Transfer { amount } => process_transfer(
            program_id,
            accounts.as_slice(),
            amount,
        ),
        MyInstruction::Arbitrary { arg } => process_arbitrary(program_id, accounts.as_slice(), arg),
    }
}

} // verus!
