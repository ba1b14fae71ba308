//! End-to-end tests of the example program's processor: initializing a
//! validation account and validating hooked calls against it.

use transfer_hook_interface::account::{AccountInfo, AccountMeta, Pubkey};
use transfer_hook_interface::error::ProgramError;
use transfer_hook_interface::example::instruction::MyInstruction;
use transfer_hook_interface::example::processor::{
    process, process_mint_to, process_transfer,
};
use transfer_hook_interface::example::state::example_data;
use transfer_hook_interface::get_extra_account_metas_address;

fn account(key: [u8; 32], is_signer: bool, data: Vec<u8>) -> AccountInfo {
    AccountInfo {
        key: Pubkey::new(key),
        is_signer,
        is_writable: false,
        owner: Pubkey::new([0; 32]),
        data,
    }
}

fn clone_info(a: &AccountInfo) -> AccountInfo {
    AccountInfo {
        key: a.key,
        is_signer: a.is_signer,
        is_writable: a.is_writable,
        owner: a.owner,
        data: a.data.clone(),
    }
}

fn mint_account(key: [u8; 32], authority: [u8; 32]) -> AccountInfo {
    let mut data = vec![0u8; 82];
    data[0] = 1;
    data[4..36].copy_from_slice(&authority);
    account(key, false, data)
}

/// The account list the example program's `Init` instruction expects:
/// validation account, mint, authority, system program, then three
/// accounts for minting and three for transferring.
fn init_accounts(program_id: &Pubkey) -> Vec<AccountInfo> {
    let mint = mint_account([7; 32], [8; 32]);
    let derived = get_extra_account_metas_address(&mint.key, program_id).unwrap();
    vec![
        account(derived.bytes, false, vec![]),
        mint,
        account([8; 32], true, vec![]),
        account([0; 32], false, vec![]),
        account([11; 32], false, vec![]),
        account([12; 32], false, vec![]),
        account([13; 32], false, vec![]),
        account([21; 32], false, vec![]),
        account([22; 32], false, vec![]),
        account([23; 32], false, vec![]),
    ]
}

#[test]
fn init_then_validate_hooked_calls() {
    let program_id = Pubkey::new([9; 32]);
    let mut accounts = init_accounts(&program_id);
    let input = MyInstruction::Init.pack();
    assert_eq!(process(&program_id, &mut accounts, &input), Ok(()));

    let validation = &accounts[0];
    assert_eq!(validation.owner.bytes, program_id.bytes);
    assert_eq!(validation.data.len(), 2 * (16 + 34 * 3));

    // MintTo with the stored accounts supplied in order succeeds
    let mut mint_to_accounts = vec![
        clone_info(&accounts[1]),
        account([40; 32], false, vec![]),
        account([8; 32], false, vec![]),
        clone_info(&accounts[0]),
        account([11; 32], false, vec![]),
        account([12; 32], false, vec![]),
        account([13; 32], false, vec![]),
    ];
    let input = MyInstruction::MintTo { amount: 5 }.pack();
    assert_eq!(process(&program_id, &mut mint_to_accounts, &input), Ok(()));

    // Transfer with the stored accounts supplied in order succeeds
    let mut transfer_accounts = vec![
        account([50; 32], false, vec![]),
        clone_info(&accounts[1]),
        account([40; 32], false, vec![]),
        account([8; 32], false, vec![]),
        clone_info(&accounts[0]),
        account([21; 32], false, vec![]),
        account([22; 32], false, vec![]),
        account([23; 32], false, vec![]),
    ];
    let input = MyInstruction::Transfer { amount: 5 }.pack();
    assert_eq!(process(&program_id, &mut transfer_accounts, &input), Ok(()));

    // Supplying the transfer list where the mint list is stored fails
    let wrong = [
        clone_info(&accounts[1]),
        account([40; 32], false, vec![]),
        account([8; 32], false, vec![]),
        clone_info(&accounts[0]),
        account([21; 32], false, vec![]),
        account([22; 32], false, vec![]),
        account([23; 32], false, vec![]),
    ];
    assert_eq!(
        process_mint_to(&program_id, &wrong, 5),
        Err(ProgramError::Custom(0))
    );
}

#[test]
fn init_twice_fails() {
    let program_id = Pubkey::new([9; 32]);
    let mut accounts = init_accounts(&program_id);
    let input = MyInstruction::Init.pack();
    assert_eq!(process(&program_id, &mut accounts, &input), Ok(()));
    assert_eq!(
        process(&program_id, &mut accounts, &input),
        Err(ProgramError::AccountAlreadyInUse)
    );
}

#[test]
fn init_requires_signed_authority() {
    let program_id = Pubkey::new([9; 32]);
    let mut accounts = init_accounts(&program_id);
    accounts[2].is_signer = false;
    let input = MyInstruction::Init.pack();
    assert_eq!(
        process(&program_id, &mut accounts, &input),
        Err(ProgramError::MissingRequiredSignature)
    );
}

#[test]
fn init_requires_enough_accounts() {
    let program_id = Pubkey::new([9; 32]);
    let mut accounts = init_accounts(&program_id);
    accounts.truncate(9);
    let input = MyInstruction::Init.pack();
    assert_eq!(
        process(&program_id, &mut accounts, &input),
        Err(ProgramError::NotEnoughAccountKeys)
    );
}

#[test]
fn hooked_call_rejects_wrong_validation_account() {
    let program_id = Pubkey::new([9; 32]);
    let accounts = [
        mint_account([7; 32], [8; 32]),
        account([40; 32], false, vec![]),
        account([8; 32], false, vec![]),
        account([33; 32], false, vec![]),
    ];
    assert_eq!(
        process_mint_to(&program_id, &accounts, 5),
        Err(ProgramError::InvalidSeeds)
    );
}

#[test]
fn resolver_strictness_through_processor() {
    let program_id = Pubkey::new([9; 32]);
    let mint = mint_account([7; 32], [8; 32]);
    let derived = get_extra_account_metas_address(&mint.key, &program_id).unwrap();
    let metas: Vec<AccountMeta> = [[11u8; 32], [12; 32], [13; 32], [21; 32], [22; 32], [23; 32]]
        .iter()
        .map(|k| AccountMeta {
            pubkey: Pubkey::new(*k),
            is_signer: false,
            is_writable: false,
        })
        .collect();
    let data = example_data(&metas).unwrap();
    let validation = account(derived.bytes, false, data);

    let fixed = [
        account([50; 32], false, vec![]),
        mint,
        account([40; 32], false, vec![]),
        account([8; 32], false, vec![]),
        validation,
    ];
    // stored transfer list is [21, 22, 23]
    let supply = |keys: &[[u8; 32]]| -> Vec<AccountInfo> {
        let mut all: Vec<AccountInfo> = fixed.iter().map(clone_info).collect();
        for k in keys {
            all.push(account(*k, false, vec![]));
        }
        all
    };

    let exact = supply(&[[21; 32], [22; 32], [23; 32]]);
    assert_eq!(process_transfer(&program_id, &exact, 1), Ok(()));

    let one_short = supply(&[[21; 32], [22; 32]]);
    assert_eq!(
        process_transfer(&program_id, &one_short, 1),
        Err(ProgramError::Custom(0))
    );

    let one_extra = supply(&[[21; 32], [22; 32], [23; 32], [24; 32]]);
    assert_eq!(
        process_transfer(&program_id, &one_extra, 1),
        Err(ProgramError::Custom(0))
    );

    let reordered = supply(&[[22; 32], [21; 32], [23; 32]]);
    assert_eq!(
        process_transfer(&program_id, &reordered, 1),
        Err(ProgramError::Custom(0))
    );
}

#[test]
fn process_arbitrary_checks_account_count() {
    let program_id = Pubkey::new([9; 32]);
    let mut accounts = vec![account([1; 32], false, vec![]), account([2; 32], false, vec![])];
    let input = MyInstruction::Arbitrary { arg: 4 }.pack();
    assert_eq!(process(&program_id, &mut accounts, &input), Ok(()));
    accounts.truncate(1);
    assert_eq!(
        process(&program_id, &mut accounts, &input),
        Err(ProgramError::NotEnoughAccountKeys)
    );
}
