//! Reads the one field of a token mint this interface needs — the mint
//! authority — straight out of the mint account's bytes, without
//! deserializing the rest.
//!
//! A mint stores its authority first: a 4-byte little-endian tag (0 for no
//! authority, 1 for an authority present) followed by the 32-byte
//! authority address.

use vstd::prelude::*;

use crate::account::Pubkey;
use crate::error::ProgramError;

verus! {

/// The mint authority stored in the mint account bytes `data`: `None` if
/// the mint has none, its address bytes if it has one, and an error if the
/// bytes are too short or the tag is not a valid option tag.
pub open spec fn spec_get_mint_authority(data: Seq<u8>) -> Result<Option<Seq<u8>>, ProgramError> {
    if data.len() < 36 {
        Err(ProgramError::InvalidAccountData)
    } else {
        let tag = data.subrange(0, 4);
        if tag == seq![0u8, 0u8, 0u8, 0u8] {
            Ok(None)
        } else if tag == seq![1u8, 0u8, 0u8, 0u8] {
            Ok(Some(data.subrange(4, 36)))
        } else {
            Err(ProgramError::InvalidAccountData)
        }
    }
}

/// The address bytes of an optional authority.
pub open spec fn spec_authority_view(a: Option<Pubkey>) -> Option<Seq<u8>> {
    match a {
        None => None,
        Some(pk) => Some(pk@),
    }
}

/// Extracts the mint authority from a mint account's bytes.
pub fn get_mint_authority(account_data: &[u8]) -> (r: Result<Option<Pubkey>, ProgramError>)
    ensures
        r matches Ok(a) ==> spec_get_mint_authority(account_data@) == Ok::<
            Option<Seq<u8>>,
            ProgramError,
        >(spec_authority_view(a)),
        r matches Err(e) ==> spec_get_mint_authority(account_data@) == Err::<
            Option<Seq<u8>>,
            ProgramError,
        >(e),
{
    if account_data.len() < 36 {
        return Err(ProgramError::InvalidAccountData);
    }
    let t0 = account_data[0];
    let t1 = account_data[1];
    let t2 = account_data[2];
    let t3 = account_data[3];
    let ghost tag = account_data@.subrange(0, 4);
    if t1 != 0 || t2 != 0 || t3 != 0 || t0 > 1 {
        proof {
            assert(tag != seq![0u8, 0u8, 0u8, 0u8] && tag != seq![1u8, 0u8, 0u8, 0u8]) by {
                assert(tag[0] == t0 && tag[1] == t1 && tag[2] == t2 && tag[3] == t3);
            }
        }
        return Err(ProgramError::InvalidAccountData);
    }
    if t0 == 0 {
        proof {
            assert(tag =~= seq![0u8, 0u8, 0u8, 0u8]);
        }
        return Ok(None);
    }
    proof {
        assert(tag =~= seq![1u8, 0u8, 0u8, 0u8]);
        assert(tag != seq![0u8, 0u8, 0u8, 0u8]) by {
            assert(tag[0] == 1);
        }
    }
    let mut key: [u8; 32] = [0; 32];
    let mut i: usize = 0;
    while i < 32
        invariant
            i <= 32,
            account_data@.len() >= 36,
            forall|j: int| 0 <= j < i ==> key@[j] == account_data@[4 + j],
        decreases 32 - i,
    {
        key[i] = account_data[4 + i];
        i = i + 1;
    }
    let pk = Pubkey { bytes: key };
    assert(pk@ =~= account_data@.subrange(4, 36));
    Ok(Some(pk))
}

} // verus!
