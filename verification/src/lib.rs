//! An interface for performing a hook on transfer, where a token program
//! calls into a separate hook program with additional accounts after all
//! other logic, to check that a transfer has met all required preconditions.
//!
//! The interface rests on a validation account: a per-mint account at a
//! deterministically derived address, holding a type-length-value encoded
//! list of the extra accounts each hook instruction requires.

use vstd::prelude::*;

pub mod account;
pub mod discriminator;
pub mod error;
pub mod example;
pub mod inline_spl_token;
pub mod instruction;
pub mod resolver;
pub mod tlv;

use crate::account::{AccountInfo, AccountInfoV, Pubkey};
use crate::error::{hook_error, HookInterfaceError, ProgramError};
use crate::resolver::MAX_ACCOUNT_METAS;

verus! {

/// Namespace for all programs implementing the transfer-hook interface.
pub const NAMESPACE: &'static str = "spl-transfer-hook-interface";

/// Seed for the validation account state: the bytes of `extra-account-metas`.
pub const EXTRA_ACCOUNT_METAS_SEED: [u8; 19] = [
    101, 120, 116, 114, 97, 45, 97, 99, 99, 111, 117, 110, 116, 45, 109, 101, 116, 97, 115,
];

/// The derived address and bump seed the host environment's program-derived
/// address search produces for the given seeds under the given program, or
/// nothing in the statistically improbable case that no bump seed works.
pub uninterp spec fn pda_of(seeds: Seq<Seq<u8>>, program_id: Seq<u8>) -> Option<(Seq<u8>, u8)>;

/// Whether the host environment's curve check places the address on the
/// ed25519 curve.
pub uninterp spec fn on_curve_of(key: Seq<u8>) -> bool;

/// Relies on `solana_program::pubkey::Pubkey::try_find_program_address`:
/// the result is a function of the seeds and the program id alone, and an
/// address it returns never lies on the ed25519 curve.
#[verifier::external_body]
fn try_find_program_address(seeds: &Vec<Vec<u8>>, program_id: &Pubkey) -> (r: Option<(Pubkey, u8)>)
    ensures
        r matches Some(p) ==> pda_of(seeds.deep_view(), program_id@) == Some((p.0@, p.1))
            && !on_curve_of(p.0@),
        r is None ==> pda_of(seeds.deep_view(), program_id@) is None,
{
    let seed_slices: Vec<&[u8]> = seeds.iter().map(|s| s.as_slice()).collect();
    let pid = solana_program::pubkey::Pubkey::new_from_array(program_id.bytes);
    solana_program::pubkey::Pubkey::try_find_program_address(&seed_slices, &pid)
        .map(|(key, bump)| (Pubkey { bytes: key.to_bytes() }, bump))
}

/// The seeds the validation account address is derived from: the fixed
/// seed tag, then the mint address.
pub open spec fn spec_seeds(mint: Seq<u8>) -> Seq<Seq<u8>> {
    seq![EXTRA_ACCOUNT_METAS_SEED@, mint]
}

/// Function used by programs implementing the interface, when creating the
/// PDA, to get all of the PDA seeds.
pub fn collect_extra_account_metas_seeds(mint: &Pubkey) -> (r: Vec<Vec<u8>>)
    ensures
        r.deep_view() == spec_seeds(mint@),
{
    let mut seeds: Vec<Vec<u8>> = Vec::new();
    seeds.push(vstd::slice::slice_to_vec(EXTRA_ACCOUNT_METAS_SEED.as_slice()));
    seeds.push(vstd::slice::slice_to_vec(mint.bytes.as_slice()));
    assert(seeds.deep_view() =~~= spec_seeds(mint@));
    seeds
}

/// The seeds, bump included, the program signs with when creating the
/// validation account.
pub open spec fn spec_signer_seeds(mint: Seq<u8>, bump_seed: u8) -> Seq<Seq<u8>> {
    seq![EXTRA_ACCOUNT_METAS_SEED@, mint, seq![bump_seed]]
}

/// Function used by programs implementing the interface, when creating the
/// PDA, to sign for the PDA.
pub fn collect_extra_account_metas_signer_seeds(mint: &Pubkey, bump_seed: u8) -> (r: Vec<Vec<u8>>)
    ensures
        r.deep_view() == spec_signer_seeds(mint@, bump_seed),
{
    let mut seeds = collect_extra_account_metas_seeds(mint);
    let ghost before = seeds.deep_view();
    proof {
        assert(before.len() == 2);
        assert(seeds@.len() == 2);
    }
    let mut bump: Vec<u8> = Vec::new();
    bump.push(bump_seed);
    assert(bump.deep_view() =~= seq![bump_seed]);
    seeds.push(bump);
    proof {
        assert(seeds.deep_view().len() == 3);
        assert(seeds.deep_view()[0] == before[0]);
        assert(seeds.deep_view()[1] == before[1]);
        assert(seeds.deep_view()[2] =~= seq![bump_seed]);
        assert(seeds.deep_view() =~~= spec_signer_seeds(mint@, bump_seed));
    }
    seeds
}

/// Function used by programs implementing the interface, when creating the
/// PDA, to also get the bump seed.
pub fn get_extra_account_metas_address_and_bump_seed(mint: &Pubkey, program_id: &Pubkey) -> (r:
    Option<(Pubkey, u8)>)
    ensures
        r matches Some(p) ==> pda_of(spec_seeds(mint@), program_id@) == Some((p.0@, p.1))
            && !on_curve_of(p.0@),
        r is None ==> pda_of(spec_seeds(mint@), program_id@) is None,
{
    let seeds = collect_extra_account_metas_seeds(mint);
    try_find_program_address(&seeds, program_id)
}

/// Get the state address PDA
pub fn get_extra_account_metas_address(mint: &Pubkey, program_id: &Pubkey) -> (r: Option<Pubkey>)
    ensures
        r matches Some(p) ==> (pda_of(spec_seeds(mint@), program_id@) matches Some(q) && q.0 == p@
            && !on_curve_of(p@)),
        r is None ==> pda_of(spec_seeds(mint@), program_id@) is None,
{
    match get_extra_account_metas_address_and_bump_seed(mint, program_id) {
        Some(p) => Some(p.0),
        None => None,
    }
}

/// Accumulates, from the `i`-th count on, the bytes a validation account
/// must have to hold one entry per hook instruction, each storing the
/// given number of extra accounts. A count too large for one entry, or a
/// running total beyond the machine word, is `AccountDataTooSmall`.
pub open spec fn spec_total_size_from(counts: Seq<usize>, i: int, acc: int) -> Result<
    int,
    ProgramError,
>
    decreases counts.len() - i,
{
    if i >= counts.len() {
        Ok(acc)
    } else if counts[i] > MAX_ACCOUNT_METAS {
        Err(ProgramError::AccountDataTooSmall)
    } else if acc + 16 + 34 * counts[i] > usize::MAX {
        Err(ProgramError::AccountDataTooSmall)
    } else {
        spec_total_size_from(counts, i + 1, acc + 16 + 34 * counts[i])
    }
}

/// The bytes a validation account must have to hold one entry per hook
/// instruction, each storing the given number of extra accounts.
pub open spec fn spec_total_size(counts: Seq<usize>) -> Result<int, ProgramError> {
    spec_total_size_from(counts, 0, 0)
}

/// What the creation guard does, step by step: read the mint authority,
/// require it to exist, to have signed, and to match; require the supplied
/// validation account to sit at the derived address; size the account; and
/// require it untouched. Only then is the account allocated, zeroed, and
/// handed to the hook program.
pub open spec fn spec_create_validation_account(
    program_id: Seq<u8>,
    mint: AccountInfoV,
    validation: AccountInfoV,
    authority: AccountInfoV,
    counts: Seq<usize>,
) -> Result<AccountInfoV, ProgramError> {
    match crate::inline_spl_token::spec_get_mint_authority(mint.data) {
        Err(e) => Err(e),
        Ok(None) => Err(hook_error(HookInterfaceError::MintHasNoMintAuthority)),
        Ok(Some(mint_authority)) => {
            if !authority.is_signer {
                Err(ProgramError::MissingRequiredSignature)
            } else if authority.key != mint_authority {
                Err(hook_error(HookInterfaceError::IncorrectMintAuthority))
            } else {
                match pda_of(spec_seeds(mint.key), program_id) {
                    None => Err(ProgramError::InvalidSeeds),
                    Some(derived) => {
                        if derived.0 != validation.key {
                            Err(ProgramError::InvalidSeeds)
                        } else {
                            match spec_total_size(counts) {
                                Err(e) => Err(e),
                                Ok(size) => {
                                    if validation.data.len() != 0 {
                                        Err(ProgramError::AccountAlreadyInUse)
                                    } else {
                                        Ok(
                                            AccountInfoV {
                                                owner: program_id,
                                                data: Seq::new(size as nat, |i: int| 0u8),
                                                ..validation
                                            },
                                        )
                                    }
                                },
                            }
                        }
                    },
                }
            }
        },
    }
}

/// Returns a vector of `n` zero bytes.
pub(crate) fn zero_vec(n: usize) -> (r: Vec<u8>)
    ensures
        r@ == Seq::new(n as nat, |i: int| 0u8),
{
    let mut v: Vec<u8> = Vec::new();
    let mut i: usize = 0;
    while i < n
        invariant
            i <= n,
            v@.len() == i,
            forall|j: int| 0 <= j < i ==> v@[j] == 0u8,
        decreases n - i,
    {
        v.push(0);
        i = i + 1;
    }
    assert(v@ =~= Seq::new(n as nat, |j: int| 0u8));
    v
}

/// Function used by programs implementing the interface to create a
/// validation account to hold extra account metas.
///
/// Guards the transition from an untouched account to an allocated one
/// owned by the hook program: the mint's authority must exist, must have
/// signed, and must match the supplied authority account; the supplied
/// validation account must sit at the address derived for the mint under
/// the hook program; and the account must not already hold data. Each
/// element of `extra_account_counts` is the number of extra accounts one
/// hook instruction will store; the account is sized for one entry per
/// element. On failure nothing is changed.
#[verifier::loop_isolation(false)]
pub fn create_validation_account_checked(
    program_id: &Pubkey,
    mint_info: &AccountInfo,
    validation_account: &mut AccountInfo,
    authority_info: &AccountInfo,
    extra_account_counts: &[usize],
) -> (r: Result<(), ProgramError>)
    ensures
        r matches Ok(u) ==> spec_create_validation_account(
            program_id@,
            mint_info@,
            old(validation_account)@,
            authority_info@,
            extra_account_counts@,
        ) == Ok::<AccountInfoV, ProgramError>(final(validation_account)@),
        r matches Err(e) ==> spec_create_validation_account(
            program_id@,
            mint_info@,
            old(validation_account)@,
            authority_info@,
            extra_account_counts@,
        ) == Err::<AccountInfoV, ProgramError>(e) && final(validation_account)@ == old(
            validation_account,
        )@,
{
    // check that the mint authority is valid without fully deserializing
    let mint_authority = match crate::inline_spl_token::get_mint_authority(
        mint_info.data.as_slice(),
    ) {
        Err(e) => {
            return Err(e);
        },
        Ok(None) => {
            return Err(ProgramError::Custom(HookInterfaceError::MintHasNoMintAuthority.code()));
        },
        Ok(Some(a)) => a,
    };

    // Check signers
    if !authority_info.is_signer {
        return Err(ProgramError::MissingRequiredSignature);
    }
    if !crate::account::pubkey_eq(&authority_info.key, &mint_authority) {
        return Err(ProgramError::Custom(HookInterfaceError::IncorrectMintAuthority.code()));
    }

    // Check the validation account against the derived address
    let derived = match get_extra_account_metas_address_and_bump_seed(&mint_info.key, program_id) {
        None => {
            return Err(ProgramError::InvalidSeeds);
        },
        Some(p) => p,
    };
    if !crate::account::pubkey_eq(&derived.0, &validation_account.key) {
        return Err(ProgramError::InvalidSeeds);
    }

    // Size the account: one entry per hook instruction
    let mut total: usize = 0;
    let mut i: usize = 0;
    while i < extra_account_counts.len()
        invariant
            i <= extra_account_counts@.len(),
            spec_total_size(extra_account_counts@) == spec_total_size_from(
                extra_account_counts@,
                i as int,
                total as int,
            ),
        decreases extra_account_counts@.len() - i,
    {
        let c = extra_account_counts[i];
        if c > MAX_ACCOUNT_METAS {
            return Err(ProgramError::AccountDataTooSmall);
        }
        if 16 + 34 * c > usize::MAX - total {
            return Err(ProgramError::AccountDataTooSmall);
        }
        total = total + (16 + 34 * c);
        i = i + 1;
    }

    // Create the account: allocate and assign to the hook program
    if validation_account.data.len() != 0 {
        return Err(ProgramError::AccountAlreadyInUse);
    }
    validation_account.data = zero_vec(total);
    validation_account.owner = *program_id;
    proof {
        assert(spec_create_validation_account(
            program_id@,
            mint_info@,
            old(validation_account)@,
            authority_info@,
            extra_account_counts@,
        ) matches Ok(v) && v =~~= validation_account@);
    }
    Ok(())
}

} // verus!
