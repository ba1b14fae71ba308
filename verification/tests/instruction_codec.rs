//! Tests for the instruction frame codec: packing, unpacking, and the
//! round-trip behaviour of every variant.

use transfer_hook_interface::example::instruction::{MyInstruction, ARBITRARY_DISCRIMINATOR};
use transfer_hook_interface::instruction::init::{
    InitializeExtraAccountMetas, INITIALIZE_EXTRA_ACCOUNT_METAS_DISCRIMINATOR,
};
use transfer_hook_interface::instruction::mint_to::{MintTo, MINT_TO_DISCRIMINATOR};
use transfer_hook_interface::instruction::transfer::{Transfer, TRANSFER_DISCRIMINATOR};
use transfer_hook_interface::instruction::unpack_with_discriminator_checked;
use transfer_hook_interface::error::ProgramError;

#[test]
fn pack_transfer_exact_bytes() {
    let packed = MyInstruction::Transfer { amount: 1_000_000 }.pack();
    let mut expected = vec![31, 159, 135, 240, 172, 53, 179, 104];
    expected.extend_from_slice(&1_000_000u64.to_le_bytes());
    assert_eq!(packed, expected);
    assert_eq!(
        MyInstruction::unpack(&expected).unwrap(),
        MyInstruction::Transfer { amount: 1_000_000 }
    );
}

#[test]
fn round_trip_every_variant() {
    let cases = [
        MyInstruction::Init,
        MyInstruction::MintTo { amount: 0 },
        MyInstruction::MintTo { amount: 7 },
        MyInstruction::Transfer { amount: u64::MAX },
        MyInstruction::Arbitrary { arg: 0 },
        MyInstruction::Arbitrary { arg: 255 },
    ];
    for case in cases {
        assert_eq!(MyInstruction::unpack(&case.pack()).unwrap(), case);
    }
}

#[test]
fn unpack_rejects_short_input() {
    assert_eq!(
        MyInstruction::unpack(&[]),
        Err(ProgramError::InvalidInstructionData)
    );
    assert_eq!(
        MyInstruction::unpack(&[31, 159, 135, 240, 172, 53, 179]),
        Err(ProgramError::InvalidInstructionData)
    );
}

#[test]
fn unpack_rejects_unknown_discriminator() {
    assert_eq!(
        MyInstruction::unpack(&[1, 2, 3, 4, 5, 6, 7, 8]),
        Err(ProgramError::InvalidInstructionData)
    );
}

#[test]
fn unpack_rejects_truncated_payload() {
    let mut data = MINT_TO_DISCRIMINATOR.to_vec();
    data.extend_from_slice(&[1, 2, 3, 4]);
    assert_eq!(
        MyInstruction::unpack(&data),
        Err(ProgramError::InvalidInstructionData)
    );
    let data = TRANSFER_DISCRIMINATOR.to_vec();
    assert_eq!(
        MyInstruction::unpack(&data),
        Err(ProgramError::InvalidInstructionData)
    );
    let data = ARBITRARY_DISCRIMINATOR.to_vec();
    assert_eq!(
        MyInstruction::unpack(&data),
        Err(ProgramError::InvalidInstructionData)
    );
}

#[test]
fn unpack_ignores_trailing_bytes() {
    let mut data = MINT_TO_DISCRIMINATOR.to_vec();
    data.extend_from_slice(&42u64.to_le_bytes());
    data.extend_from_slice(&[9, 9, 9]);
    assert_eq!(
        MyInstruction::unpack(&data).unwrap(),
        MyInstruction::MintTo { amount: 42 }
    );
}

#[test]
fn interface_instruction_packs() {
    assert_eq!(
        InitializeExtraAccountMetas {}.pack(),
        INITIALIZE_EXTRA_ACCOUNT_METAS_DISCRIMINATOR.to_vec()
    );
    let mut expected = MINT_TO_DISCRIMINATOR.to_vec();
    expected.extend_from_slice(&42u64.to_le_bytes());
    assert_eq!(MintTo { amount: 42 }.pack(), expected);
    let mut expected = TRANSFER_DISCRIMINATOR.to_vec();
    expected.extend_from_slice(&9000u64.to_le_bytes());
    assert_eq!(Transfer { amount: 9000 }.pack(), expected);
}

#[test]
fn discriminator_split() {
    let mut data = TRANSFER_DISCRIMINATOR.to_vec();
    data.extend_from_slice(&[1, 2, 3]);
    let (disc, rest) = unpack_with_discriminator_checked(&data).unwrap();
    assert_eq!(disc, &TRANSFER_DISCRIMINATOR);
    assert_eq!(rest, &[1, 2, 3]);
    assert_eq!(
        unpack_with_discriminator_checked(&[1, 2, 3]),
        Err(ProgramError::InvalidInstructionData)
    );
}
