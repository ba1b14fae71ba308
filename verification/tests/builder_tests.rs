//! Tests for the instruction builders: account ordering and wire data.

use transfer_hook_interface::account::{AccountMeta, Pubkey};
use transfer_hook_interface::instruction::init::InitializeExtraAccountMetas;
use transfer_hook_interface::instruction::mint_to::MintTo;
use transfer_hook_interface::instruction::transfer::Transfer;

#[test]
fn initialize_builder_orders_accounts() {
    let extra = [AccountMeta {
        pubkey: Pubkey::new([30; 32]),
        is_signer: false,
        is_writable: false,
    }];
    let ix = InitializeExtraAccountMetas::initialize_extra_account_metas(
        &Pubkey::new([9; 32]),
        &Pubkey::new([1; 32]),
        &Pubkey::new([2; 32]),
        &Pubkey::new([3; 32]),
        &Pubkey::new([0; 32]),
        &extra,
    );
    assert_eq!(ix.program_id.bytes, [9; 32]);
    assert_eq!(ix.accounts.len(), 5);
    assert_eq!(ix.accounts[0].pubkey.bytes, [1; 32]);
    assert!(ix.accounts[0].is_writable);
    assert_eq!(ix.accounts[1].pubkey.bytes, [2; 32]);
    assert_eq!(ix.accounts[2].pubkey.bytes, [3; 32]);
    assert!(ix.accounts[2].is_signer);
    assert_eq!(ix.accounts[3].pubkey.bytes, [0; 32]);
    assert_eq!(ix.accounts[4].pubkey.bytes, [30; 32]);
    assert_eq!(ix.data, InitializeExtraAccountMetas {}.pack());
}

#[test]
fn mint_to_builder_orders_accounts() {
    let extra = [AccountMeta {
        pubkey: Pubkey::new([31; 32]),
        is_signer: false,
        is_writable: false,
    }];
    let ix = MintTo::execute_with_extra_account_metas(
        &Pubkey::new([9; 32]),
        &Pubkey::new([1; 32]),
        &Pubkey::new([2; 32]),
        &Pubkey::new([3; 32]),
        &Pubkey::new([4; 32]),
        &extra,
        77,
    );
    assert_eq!(ix.accounts.len(), 5);
    assert_eq!(ix.accounts[0].pubkey.bytes, [1; 32]);
    assert_eq!(ix.accounts[1].pubkey.bytes, [2; 32]);
    assert_eq!(ix.accounts[2].pubkey.bytes, [3; 32]);
    assert_eq!(ix.accounts[3].pubkey.bytes, [4; 32]);
    assert_eq!(ix.accounts[4].pubkey.bytes, [31; 32]);
    assert_eq!(ix.data, MintTo { amount: 77 }.pack());
}

#[test]
fn transfer_builder_orders_accounts() {
    let ix = Transfer::execute(
        &Pubkey::new([9; 32]),
        &Pubkey::new([1; 32]),
        &Pubkey::new([2; 32]),
        &Pubkey::new([3; 32]),
        &Pubkey::new([4; 32]),
        &Pubkey::new([5; 32]),
        1_000_000,
    );
    assert_eq!(ix.accounts.len(), 5);
    assert_eq!(ix.accounts[0].pubkey.bytes, [1; 32]);
    assert_eq!(ix.accounts[1].pubkey.bytes, [2; 32]);
    assert_eq!(ix.accounts[2].pubkey.bytes, [3; 32]);
    assert_eq!(ix.accounts[3].pubkey.bytes, [4; 32]);
    assert_eq!(ix.accounts[4].pubkey.bytes, [5; 32]);
    assert_eq!(ix.data, Transfer { amount: 1_000_000 }.pack());
    assert!(ix.accounts.iter().all(|a| !a.is_signer && !a.is_writable));
}
