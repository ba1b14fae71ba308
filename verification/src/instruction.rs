//! Supported interface instructions: the discriminator-tagged wire framing
//! shared by every instruction, and the instructions the interface defines.

use vstd::prelude::*;

use crate::account::{AccountMeta, AccountMetaV, Pubkey};
use crate::discriminator::DISCRIMINATOR_LENGTH;
use crate::error::ProgramError;

pub mod init;
pub mod mint_to;
pub mod transfer;

verus! {

/// An instruction to be submitted to a program: the program to run, the
/// accounts it may touch, and its input bytes.
#[derive(Debug)]
pub struct Instruction {
    /// The program that processes the instruction.
    pub program_id: Pubkey,
    /// The accounts the instruction may read or write, in order.
    pub accounts: Vec<AccountMeta>,
    /// The instruction's input bytes.
    pub data: Vec<u8>,
}

/// Trait for programs implementing the interface to tag their instructions
/// with an 8-byte discriminator.
pub trait HookInterfaceInstruction {
    /// The instruction's discriminator bytes.
    spec fn spec_discriminator() -> Seq<u8>;

    /// Returns the instruction's discriminator.
    fn discriminator_bytes() -> (r: [u8; 8])
        ensures
            r@ == Self::spec_discriminator(),
    ;
}

/// Splits instruction input into its 8-byte discriminator and the payload
/// that follows; input shorter than a discriminator is rejected.
pub fn unpack_with_discriminator_checked(input: &[u8]) -> (r: Result<
    (&[u8], &[u8]),
    ProgramError,
>)
    ensures
        input@.len() >= DISCRIMINATOR_LENGTH ==> (r matches Ok(p) && p.0@ == input@.take(
            DISCRIMINATOR_LENGTH as int,
        ) && p.1@ == input@.skip(DISCRIMINATOR_LENGTH as int)),
        input@.len() < DISCRIMINATOR_LENGTH ==> (r matches Err(e) && e
            == ProgramError::InvalidInstructionData),
{
    if input.len() < DISCRIMINATOR_LENGTH {
        return Err(ProgramError::InvalidInstructionData);
    }
    Ok(input.split_at(DISCRIMINATOR_LENGTH))
}

/// Returns whether the first 8 bytes of `data` are exactly `disc`.
pub fn matches_discriminator(data: &[u8], disc: &[u8; 8]) -> (r: bool)
    requires
        data@.len() >= 8,
    ensures
        r == (data@.take(8) == disc@),
{
    let mut i: usize = 0;
    while i < 8
        invariant
            i <= 8,
            data@.len() >= 8,
            forall|j: int| 0 <= j < i ==> data@[j] == disc@[j],
        decreases 8 - i,
    {
        if data[i] != disc[i] {
            assert(data@.take(8)[i as int] != disc@[i as int]);
            return false;
        }
        i = i + 1;
    }
    assert(data@.take(8) =~= disc@);
    true
}

/// Appends every descriptor of `extra` to `accounts`.
pub fn append_account_metas(accounts: &mut Vec<AccountMeta>, extra: &[AccountMeta])
    ensures
        final(accounts)@ == old(accounts)@ + extra@,
{
    let mut i: usize = 0;
    while i < extra.len()
        invariant
            i <= extra@.len(),
            accounts@ == old(accounts)@ + extra@.take(i as int),
        decreases extra@.len() - i,
    {
        accounts.push(extra[i]);
        assert(accounts@ =~= old(accounts)@ + extra@.take(i + 1));
        i = i + 1;
    }
    assert(accounts@ =~= old(accounts)@ + extra@);
}

/// The descriptors of `metas`, as mathematical values.
pub open spec fn metas_deep_view(metas: Seq<AccountMeta>) -> Seq<AccountMetaV> {
    metas.map_values(|m: AccountMeta| m@)
}

/// Appends the little-endian bytes of `amount` to `buf`.
pub fn append_u64_le(buf: &mut Vec<u8>, amount: u64)
    ensures
        final(buf)@ == old(buf)@ + vstd::bytes::spec_u64_to_le_bytes(amount),
{
    let bytes = vstd::bytes::u64_to_le_bytes(amount);
    let mut i: usize = 0;
    proof {
        vstd::bytes::lemma_auto_spec_u64_to_from_le_bytes();
    }
    while i < bytes.len()
        invariant
            i <= bytes@.len(),
            bytes@ == vstd::bytes::spec_u64_to_le_bytes(amount),
            buf@ == old(buf)@ + bytes@.take(i as int),
        decreases bytes@.len() - i,
    {
        buf.push(bytes[i]);
        assert(buf@ =~= old(buf)@ + bytes@.take(i + 1));
        i = i + 1;
    }
    assert(buf@ =~= old(buf)@ + bytes@);
}

/// Appends the 8 discriminator bytes to `buf`.
pub fn append_discriminator(buf: &mut Vec<u8>, disc: &[u8; 8])
    ensures
        final(buf)@ == old(buf)@ + disc@,
{
    let mut i: usize = 0;
    while i < 8
        invariant
            i <= 8,
            buf@ == old(buf)@ + disc@.take(i as int),
        decreases 8 - i,
    {
        buf.push(disc[i]);
        assert(buf@ =~= old(buf)@ + disc@.take(i + 1));
        i = i + 1;
    }
    assert(buf@ =~= old(buf)@ + disc@);
}

} // verus!
