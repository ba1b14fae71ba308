//! Tests for the extra-account-metas resolver: storing and reading lists,
//! the strict positional check, and byte compatibility with the external
//! type-length-value container crate.

use spl_type_length_value::discriminator::{Discriminator, TlvDiscriminator};
use spl_type_length_value::state::{TlvState, TlvStateBorrowed, TlvStateMut};
use transfer_hook_interface::account::{AccountInfo, AccountMeta, Pubkey};
use transfer_hook_interface::error::ProgramError;
use transfer_hook_interface::instruction::mint_to::MINT_TO_DISCRIMINATOR;
use transfer_hook_interface::instruction::transfer::TRANSFER_DISCRIMINATOR;
use transfer_hook_interface::resolver::{
    check_extra_account_metas, init_with_account_metas, size_of, unpack_account_metas,
};

struct MintToTag;
impl TlvDiscriminator for MintToTag {
    const TLV_DISCRIMINATOR: Discriminator = Discriminator::new([143, 74, 223, 72, 254, 24, 18, 53]);
}

fn meta(key: [u8; 32], signer: bool, writable: bool) -> AccountMeta {
    AccountMeta {
        pubkey: Pubkey::new(key),
        is_signer: signer,
        is_writable: writable,
    }
}

fn info(key: [u8; 32]) -> AccountInfo {
    AccountInfo {
        key: Pubkey::new(key),
        is_signer: false,
        is_writable: false,
        owner: Pubkey::new([0; 32]),
        data: vec![],
    }
}

#[test]
fn size_of_counts_header_and_records() {
    assert_eq!(size_of(0), Ok(16));
    assert_eq!(size_of(3), Ok(16 + 3 * 34));
    assert_eq!(size_of(usize::MAX), Err(ProgramError::AccountDataTooSmall));
}

#[test]
fn store_and_read_back() {
    let metas = vec![
        meta([1; 32], true, false),
        meta([2; 32], false, true),
        meta([3; 32], false, false),
    ];
    let mut data = vec![0u8; size_of(3).unwrap()];
    init_with_account_metas(&mut data, &MINT_TO_DISCRIMINATOR, &metas).unwrap();
    let read = unpack_account_metas(&data, &MINT_TO_DISCRIMINATOR).unwrap();
    assert_eq!(read.len(), 3);
    for (a, b) in read.iter().zip(metas.iter()) {
        assert_eq!(a.pubkey.bytes, b.pubkey.bytes);
        assert_eq!(a.is_signer, b.is_signer);
        assert_eq!(a.is_writable, b.is_writable);
    }
}

#[test]
fn missing_entry_is_not_found() {
    let metas = vec![meta([1; 32], false, false)];
    // room for the entry plus an unused slot, as a fresh account has
    let mut data = vec![0u8; 2 * size_of(1).unwrap()];
    init_with_account_metas(&mut data, &MINT_TO_DISCRIMINATOR, &metas).unwrap();
    let missing = unpack_account_metas(&data, &TRANSFER_DISCRIMINATOR);
    assert!(matches!(missing, Err(ProgramError::TypeNotFound)));
}

#[test]
fn lookup_in_full_buffer_runs_off_the_end() {
    let metas = vec![meta([1; 32], false, false)];
    let mut data = vec![0u8; size_of(1).unwrap()];
    init_with_account_metas(&mut data, &MINT_TO_DISCRIMINATOR, &metas).unwrap();
    let missing = unpack_account_metas(&data, &TRANSFER_DISCRIMINATOR);
    assert!(matches!(missing, Err(ProgramError::InvalidAccountData)));
}

#[test]
fn duplicate_entry_is_rejected() {
    let metas = vec![meta([1; 32], false, false)];
    let mut data = vec![0u8; 2 * size_of(1).unwrap()];
    init_with_account_metas(&mut data, &MINT_TO_DISCRIMINATOR, &metas).unwrap();
    assert_eq!(
        init_with_account_metas(&mut data, &MINT_TO_DISCRIMINATOR, &metas),
        Err(ProgramError::TypeAlreadyExists)
    );
}

#[test]
fn undersized_buffer_is_rejected() {
    let metas = vec![
        meta([1; 32], false, false),
        meta([2; 32], false, false),
    ];
    let mut data = vec![0u8; size_of(1).unwrap()];
    assert_eq!(
        init_with_account_metas(&mut data, &MINT_TO_DISCRIMINATOR, &metas),
        Err(ProgramError::InvalidAccountData)
    );
    assert!(data.iter().all(|&b| b == 0));
}

#[test]
fn resolver_strictness_on_length_and_order() {
    let stored = vec![
        meta([1; 32], false, false),
        meta([2; 32], false, false),
        meta([3; 32], false, false),
    ];
    let exact = vec![info([1; 32]), info([2; 32]), info([3; 32])];
    assert_eq!(check_extra_account_metas(&stored, &exact), Ok(()));

    let one_short = vec![info([1; 32]), info([2; 32])];
    assert_eq!(
        check_extra_account_metas(&stored, &one_short),
        Err(ProgramError::Custom(0))
    );

    let one_extra = vec![info([1; 32]), info([2; 32]), info([3; 32]), info([4; 32])];
    assert_eq!(
        check_extra_account_metas(&stored, &one_extra),
        Err(ProgramError::Custom(0))
    );

    let reordered = vec![info([2; 32]), info([1; 32]), info([3; 32])];
    assert_eq!(
        check_extra_account_metas(&stored, &reordered),
        Err(ProgramError::Custom(0))
    );

    let wrong_address = vec![info([1; 32]), info([2; 32]), info([9; 32])];
    assert_eq!(
        check_extra_account_metas(&stored, &wrong_address),
        Err(ProgramError::Custom(0))
    );
}

#[test]
fn stored_bytes_readable_by_tlv_crate() {
    let metas = vec![meta([5; 32], true, false), meta([6; 32], false, true)];
    let mut data = vec![0u8; size_of(2).unwrap()];
    init_with_account_metas(&mut data, &MINT_TO_DISCRIMINATOR, &metas).unwrap();

    let state = TlvStateBorrowed::unpack(&data).unwrap();
    let value = state.get_bytes::<MintToTag>().unwrap();
    let mut expected = 2u32.to_le_bytes().to_vec();
    expected.extend_from_slice(&[5; 32]);
    expected.extend_from_slice(&[1, 0]);
    expected.extend_from_slice(&[6; 32]);
    expected.extend_from_slice(&[0, 1]);
    assert_eq!(value, expected.as_slice());
}

#[test]
fn tlv_crate_bytes_readable_by_resolver() {
    let mut data = vec![0u8; size_of(1).unwrap()];
    {
        let mut state = TlvStateMut::unpack(&mut data).unwrap();
        let value = state.alloc::<MintToTag>(4 + 34).unwrap();
        value[..4].copy_from_slice(&1u32.to_le_bytes());
        value[4..36].copy_from_slice(&[7; 32]);
        value[36] = 1;
        value[37] = 0;
    }
    let read = unpack_account_metas(&data, &MINT_TO_DISCRIMINATOR).unwrap();
    assert_eq!(read.len(), 1);
    assert_eq!(read[0].pubkey.bytes, [7; 32]);
    assert!(read[0].is_signer);
    assert!(!read[0].is_writable);
}
