//! Tests for the validation account creation guard: each rejection, the
//! successful transition, and the failure of a repeated creation.

use transfer_hook_interface::account::{AccountInfo, Pubkey};
use transfer_hook_interface::error::ProgramError;
use transfer_hook_interface::{
    create_validation_account_checked, get_extra_account_metas_address,
};

fn mint_data_with_authority(authority: &[u8; 32]) -> Vec<u8> {
    let mut data = vec![0u8; 82];
    data[0] = 1;
    data[4..36].copy_from_slice(authority);
    data
}

fn mint_data_without_authority() -> Vec<u8> {
    vec![0u8; 82]
}

fn account(key: [u8; 32], is_signer: bool, data: Vec<u8>) -> AccountInfo {
    AccountInfo {
        key: Pubkey::new(key),
        is_signer,
        is_writable: true,
        owner: Pubkey::new([0; 32]),
        data,
    }
}

#[test]
fn rejects_mint_without_authority() {
    let program_id = Pubkey::new([9; 32]);
    let mint = account([7; 32], false, mint_data_without_authority());
    let mut validation = account([3; 32], false, vec![]);
    let authority = account([8; 32], true, vec![]);
    let result =
        create_validation_account_checked(&program_id, &mint, &mut validation, &authority, &[3, 3]);
    assert_eq!(result, Err(ProgramError::Custom(1)));
    assert!(validation.data.is_empty());
}

#[test]
fn rejects_missing_signature() {
    let program_id = Pubkey::new([9; 32]);
    let mint = account([7; 32], false, mint_data_with_authority(&[8; 32]));
    let mut validation = account([3; 32], false, vec![]);
    let authority = account([8; 32], false, vec![]);
    let result =
        create_validation_account_checked(&program_id, &mint, &mut validation, &authority, &[3, 3]);
    assert_eq!(result, Err(ProgramError::MissingRequiredSignature));
}

#[test]
fn rejects_wrong_authority() {
    let program_id = Pubkey::new([9; 32]);
    let mint = account([7; 32], false, mint_data_with_authority(&[8; 32]));
    let mut validation = account([3; 32], false, vec![]);
    let impostor = account([6; 32], true, vec![]);
    let result =
        create_validation_account_checked(&program_id, &mint, &mut validation, &impostor, &[3, 3]);
    assert_eq!(result, Err(ProgramError::Custom(2)));
}

#[test]
fn rejects_wrong_validation_address() {
    let program_id = Pubkey::new([9; 32]);
    let mint = account([7; 32], false, mint_data_with_authority(&[8; 32]));
    let mut validation = account([3; 32], false, vec![]);
    let authority = account([8; 32], true, vec![]);
    let result =
        create_validation_account_checked(&program_id, &mint, &mut validation, &authority, &[3, 3]);
    assert_eq!(result, Err(ProgramError::InvalidSeeds));
}

#[test]
fn rejects_malformed_mint_data() {
    let program_id = Pubkey::new([9; 32]);
    let mint = account([7; 32], false, vec![1, 0, 0]);
    let mut validation = account([3; 32], false, vec![]);
    let authority = account([8; 32], true, vec![]);
    let result =
        create_validation_account_checked(&program_id, &mint, &mut validation, &authority, &[3, 3]);
    assert_eq!(result, Err(ProgramError::InvalidAccountData));
}

#[test]
fn creates_account_and_rejects_repeat() {
    let program_id = Pubkey::new([9; 32]);
    let mint = account([7; 32], false, mint_data_with_authority(&[8; 32]));
    let derived = get_extra_account_metas_address(&mint.key, &program_id).unwrap();
    let mut validation = account(derived.bytes, false, vec![]);
    let authority = account([8; 32], true, vec![]);

    let result =
        create_validation_account_checked(&program_id, &mint, &mut validation, &authority, &[3, 3]);
    assert_eq!(result, Ok(()));
    assert_eq!(validation.owner.bytes, program_id.bytes);
    assert_eq!(validation.data.len(), 2 * (16 + 34 * 3));
    assert!(validation.data.iter().all(|&b| b == 0));
    assert_eq!(validation.key.bytes, derived.bytes);

    let repeat =
        create_validation_account_checked(&program_id, &mint, &mut validation, &authority, &[3, 3]);
    assert_eq!(repeat, Err(ProgramError::AccountAlreadyInUse));
}

#[test]
fn rejects_oversized_count() {
    let program_id = Pubkey::new([9; 32]);
    let mint = account([7; 32], false, mint_data_with_authority(&[8; 32]));
    let derived = get_extra_account_metas_address(&mint.key, &program_id).unwrap();
    let mut validation = account(derived.bytes, false, vec![]);
    let authority = account([8; 32], true, vec![]);
    let result = create_validation_account_checked(
        &program_id,
        &mint,
        &mut validation,
        &authority,
        &[usize::MAX],
    );
    assert_eq!(result, Err(ProgramError::AccountDataTooSmall));
}
