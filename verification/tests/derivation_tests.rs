//! Tests for the validation account deriver: determinism, agreement with
//! the host environment's derivation, and the off-curve property.

use transfer_hook_interface::account::Pubkey;
use transfer_hook_interface::{
    collect_extra_account_metas_seeds, collect_extra_account_metas_signer_seeds,
    get_extra_account_metas_address, get_extra_account_metas_address_and_bump_seed,
};

#[test]
fn derivation_is_deterministic() {
    let mint = Pubkey::new([7; 32]);
    let program_id = Pubkey::new([9; 32]);
    let (addr1, bump1) = get_extra_account_metas_address_and_bump_seed(&mint, &program_id).unwrap();
    let (addr2, bump2) = get_extra_account_metas_address_and_bump_seed(&mint, &program_id).unwrap();
    assert_eq!(addr1.bytes, addr2.bytes);
    assert_eq!(bump1, bump2);
    let addr3 = get_extra_account_metas_address(&mint, &program_id).unwrap();
    assert_eq!(addr1.bytes, addr3.bytes);
}

#[test]
fn derivation_matches_host_derivation() {
    let mint = Pubkey::new([7; 32]);
    let program_id = Pubkey::new([9; 32]);
    let (addr, bump) = get_extra_account_metas_address_and_bump_seed(&mint, &program_id).unwrap();
    let host_mint = solana_program::pubkey::Pubkey::new_from_array([7; 32]);
    let host_pid = solana_program::pubkey::Pubkey::new_from_array([9; 32]);
    let (host_addr, host_bump) = solana_program::pubkey::Pubkey::find_program_address(
        &[b"extra-account-metas", host_mint.as_ref()],
        &host_pid,
    );
    assert_eq!(addr.bytes, host_addr.to_bytes());
    assert_eq!(bump, host_bump);
}

#[test]
fn derived_address_is_off_curve() {
    let mint = Pubkey::new([1; 32]);
    let program_id = Pubkey::new([2; 32]);
    let addr = get_extra_account_metas_address(&mint, &program_id).unwrap();
    let host_addr = solana_program::pubkey::Pubkey::new_from_array(addr.bytes);
    assert!(!host_addr.is_on_curve());
}

#[test]
fn seed_collection() {
    let mint = Pubkey::new([5; 32]);
    let seeds = collect_extra_account_metas_seeds(&mint);
    assert_eq!(seeds.len(), 2);
    assert_eq!(seeds[0], b"extra-account-metas".to_vec());
    assert_eq!(seeds[1], vec![5u8; 32]);
    let signer_seeds = collect_extra_account_metas_signer_seeds(&mint, 254);
    assert_eq!(signer_seeds.len(), 3);
    assert_eq!(signer_seeds[0], b"extra-account-metas".to_vec());
    assert_eq!(signer_seeds[1], vec![5u8; 32]);
    assert_eq!(signer_seeds[2], vec![254u8]);
}

#[test]
fn namespace_constant() {
    assert_eq!(transfer_hook_interface::NAMESPACE, "spl-transfer-hook-interface");
}
