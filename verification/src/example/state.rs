//! State helpers for working with the example program

use vstd::prelude::*;

use crate::account::{AccountMeta, AccountMetaV};
use crate::error::ProgramError;
use crate::instruction::metas_deep_view;
use crate::instruction::mint_to::MINT_TO_DISCRIMINATOR;
use crate::instruction::transfer::TRANSFER_DISCRIMINATOR;
use crate::resolver::{
    init_with_account_metas, spec_metas_value, spec_unpack_metas, MAX_ACCOUNT_METAS,
};

verus! {

/// Generate example data to be used directly in an account for testing:
/// a buffer holding the first three descriptors under the `MintTo`
/// discriminator and the rest under the `Transfer` discriminator, sized
/// exactly for the two entries.
pub fn example_data(account_metas: &[AccountMeta]) -> (r: Result<Vec<u8>, ProgramError>)
    requires
        account_metas@.len() >= 3,
    ensures
        ({
            let n2 = account_metas@.len() - 3;
            &&& ((n2 > MAX_ACCOUNT_METAS || 134 + 34 * n2 > usize::MAX) ==> r == Err::<
                Vec<u8>,
                ProgramError,
            >(ProgramError::AccountDataTooSmall))
            &&& ((n2 <= MAX_ACCOUNT_METAS && 134 + 34 * n2 <= usize::MAX) ==> (r matches Ok(data)
                && data@.len() == 134 + 34 * n2 && spec_unpack_metas(data@, MINT_TO_DISCRIMINATOR@)
                == Ok::<Seq<AccountMetaV>, ProgramError>(
                metas_deep_view(account_metas@.take(3)),
            ) && spec_unpack_metas(data@, TRANSFER_DISCRIMINATOR@) == Ok::<
                Seq<AccountMetaV>,
                ProgramError,
            >(metas_deep_view(account_metas@.skip(3)))))
        }),
{
    let n2 = account_metas.len() - 3;
    if n2 > MAX_ACCOUNT_METAS {
        return Err(ProgramError::AccountDataTooSmall);
    }
    let total_wide: u64 = 134u64 + 34u64 * (n2 as u64);
    if total_wide > (usize::MAX as u64) {
        return Err(ProgramError::AccountDataTooSmall);
    }
    let account_size = total_wide as usize;
    let mut data = crate::zero_vec(account_size);
    let ghost zeros = data@;
    let parts = account_metas.split_at(3);
    let first = parts.0;
    let rest = parts.1;
    let ghost ms1 = first.deep_view();
    let ghost ms2 = rest.deep_view();
    proof {
        vstd::bytes::lemma_auto_spec_u32_to_from_le_bytes();
        assert(ms1 =~= metas_deep_view(account_metas@.take(3)));
        assert(ms2 =~= metas_deep_view(account_metas@.skip(3)));
        assert(crate::resolver::wf_metas(ms1));
        assert(crate::resolver::wf_metas(ms2));
        crate::resolver::lemma_records_len(ms1);
        crate::resolver::lemma_records_len(ms2);
        assert(spec_metas_value(ms1).len() == 106);
        assert(spec_metas_value(ms2).len() == 4 + 34 * n2);
        assert(MINT_TO_DISCRIMINATOR@ != crate::tlv::zero_disc()) by {
            assert(MINT_TO_DISCRIMINATOR@[0] == 143);
        }
        assert(TRANSFER_DISCRIMINATOR@ != crate::tlv::zero_disc()) by {
            assert(TRANSFER_DISCRIMINATOR@[0] == 31);
        }
        assert(MINT_TO_DISCRIMINATOR@ != TRANSFER_DISCRIMINATOR@) by {
            assert(MINT_TO_DISCRIMINATOR@[0] == 143);
            assert(TRANSFER_DISCRIMINATOR@[0] == 31);
        }
        crate::tlv::lemma_tlv_insert_into_zeros(
            zeros,
            MINT_TO_DISCRIMINATOR@,
            spec_metas_value(ms1),
        );
    }
    match init_with_account_metas(&mut data, &MINT_TO_DISCRIMINATOR, first) {
        Err(e) => {
            proof {
                assert(false);
            }
            return Err(e);
        },
        Ok(u) => {
        },
    }
    let ghost d1 = data@;
    proof {
        crate::tlv::lemma_tlv_insert_after_first(
            zeros,
            MINT_TO_DISCRIMINATOR@,
            spec_metas_value(ms1),
            TRANSFER_DISCRIMINATOR@,
            spec_metas_value(ms2),
        );
    }
    match init_with_account_metas(&mut data, &TRANSFER_DISCRIMINATOR, rest) {
        Err(e) => {
            proof {
                assert(false);
            }
            return Err(e);
        },
        Ok(u) => {
        },
    }
    proof {
        crate::tlv::lemma_tlv_insert_get(
            d1,
            TRANSFER_DISCRIMINATOR@,
            spec_metas_value(ms2),
            data@,
        );
        crate::tlv::lemma_tlv_insert_get(zeros, MINT_TO_DISCRIMINATOR@, spec_metas_value(ms1), d1);
        crate::tlv::lemma_tlv_insert_preserves_get(
            d1,
            TRANSFER_DISCRIMINATOR@,
            spec_metas_value(ms2),
            data@,
            MINT_TO_DISCRIMINATOR@,
        );
        crate::resolver::lemma_parse_serialized(ms1);
        crate::resolver::lemma_parse_serialized(ms2);
    }
    Ok(data)
}

} // verus!
