//! Reading and writing, inside a validation account's type-length-value
//! payload, the per-hook-instruction list of extra accounts a caller must
//! supply, and the strict check of supplied accounts against a stored list.

use vstd::prelude::*;

use crate::account::{AccountInfo, AccountInfoV, AccountMeta, AccountMetaV, Pubkey};
use crate::error::{hook_error, HookInterfaceError, ProgramError};
use crate::tlv;

verus! {

/// The number of bytes one stored account descriptor takes: a 32-byte
/// address, one signer byte, one writable byte.
pub const ACCOUNT_META_RECORD_LENGTH: usize = 34;

/// The most descriptors one entry can hold: any more and the entry's value
/// length would not fit its 4-byte length field.
pub const MAX_ACCOUNT_METAS: usize = 126322567;

/// The byte an account flag is stored as.
pub open spec fn bool_byte(b: bool) -> u8 {
    if b {
        1u8
    } else {
        0u8
    }
}

/// The 34 bytes one descriptor is stored as.
pub open spec fn spec_record(m: AccountMetaV) -> Seq<u8> {
    m.key + seq![bool_byte(m.is_signer), bool_byte(m.is_writable)]
}

/// The stored bytes of a list of descriptors, one 34-byte record each.
pub open spec fn spec_records(ms: Seq<AccountMetaV>) -> Seq<u8>
    decreases ms.len(),
{
    if ms.len() == 0 {
        Seq::empty()
    } else {
        spec_records(ms.drop_last()) + spec_record(ms.last())
    }
}

/// The value bytes a list of descriptors is stored as: the count in
/// little-endian order, then the records.
pub open spec fn spec_metas_value(ms: Seq<AccountMetaV>) -> Seq<u8> {
    vstd::bytes::spec_u32_to_le_bytes(ms.len() as u32) + spec_records(ms)
}

/// Every descriptor's address has 32 bytes.
pub open spec fn wf_metas(ms: Seq<AccountMetaV>) -> bool {
    forall|i: int| 0 <= i < ms.len() ==> (#[trigger] ms[i]).key.len() == 32
}

/// The descriptor stored as the 34 bytes `r`.
pub open spec fn spec_parse_record(r: Seq<u8>) -> AccountMetaV
    recommends
        r.len() == 34,
{
    AccountMetaV { key: r.subrange(0, 32), is_signer: r[32] != 0, is_writable: r[33] != 0 }
}

/// The descriptors stored as the value bytes `value`: the count, then that
/// many 34-byte records, filling the value exactly.
pub open spec fn spec_parse_metas(value: Seq<u8>) -> Result<Seq<AccountMetaV>, ProgramError> {
    if value.len() < 4 {
        Err(ProgramError::InvalidAccountData)
    } else {
        let n = vstd::bytes::spec_u32_from_le_bytes(value.subrange(0, 4)) as int;
        if value.len() != 4 + 34 * n {
            Err(ProgramError::InvalidAccountData)
        } else {
            Ok(
                Seq::new(
                    n as nat,
                    |i: int| spec_parse_record(value.subrange(4 + 34 * i, 4 + 34 * i + 34)),
                ),
            )
        }
    }
}

/// The records of a well-formed list take 34 bytes each.
pub proof fn lemma_records_len(ms: Seq<AccountMetaV>)
    requires
        wf_metas(ms),
    ensures
        spec_records(ms).len() == 34 * ms.len(),
    decreases ms.len(),
{
    if ms.len() > 0 {
        assert(wf_metas(ms.drop_last()));
        lemma_records_len(ms.drop_last());
        assert(ms.last().key.len() == 32);
    }
}

/// Record `i` of a well-formed list sits at offset `34 * i` of its records.
pub proof fn lemma_records_index(ms: Seq<AccountMetaV>, i: int)
    requires
        wf_metas(ms),
        0 <= i < ms.len(),
    ensures
        spec_records(ms).subrange(34 * i, 34 * i + 34) == spec_record(ms[i]),
    decreases ms.len(),
{
    lemma_records_len(ms);
    assert(wf_metas(ms.drop_last()));
    lemma_records_len(ms.drop_last());
    assert(ms.last().key.len() == 32);
    if i == ms.len() - 1 {
        assert(spec_records(ms).subrange(34 * i, 34 * i + 34) =~= spec_record(ms.last()));
    } else {
        lemma_records_index(ms.drop_last(), i);
        assert(spec_records(ms).subrange(34 * i, 34 * i + 34) =~= spec_records(
            ms.drop_last(),
        ).subrange(34 * i, 34 * i + 34));
    }
}

/// Parsing the stored form of a well-formed descriptor list returns the
/// list itself.
pub proof fn lemma_parse_serialized(ms: Seq<AccountMetaV>)
    requires
        wf_metas(ms),
        ms.len() <= MAX_ACCOUNT_METAS,
    ensures
        spec_parse_metas(spec_metas_value(ms)) == Ok::<Seq<AccountMetaV>, ProgramError>(ms),
{
    vstd::bytes::lemma_auto_spec_u32_to_from_le_bytes();
    lemma_records_len(ms);
    let value = spec_metas_value(ms);
    let n = ms.len() as int;
    assert(value.subrange(0, 4) =~= vstd::bytes::spec_u32_to_le_bytes(ms.len() as u32));
    assert(value.len() == 4 + 34 * n);
    assert forall|i: int| 0 <= i < n implies value.subrange(4 + 34 * i, 4 + 34 * i + 34)
        == spec_record(ms[i]) by {
        lemma_records_index(ms, i);
        assert(value.subrange(4 + 34 * i, 4 + 34 * i + 34) =~= spec_records(ms).subrange(
            34 * i,
            34 * i + 34,
        ));
    }
    assert forall|i: int| 0 <= i < n implies spec_parse_record(
        value.subrange(4 + 34 * i, 4 + 34 * i + 34),
    ) == ms[i] by {
        let r = spec_record(ms[i]);
        assert(r.subrange(0, 32) =~= ms[i].key);
        assert(r[32] == bool_byte(ms[i].is_signer));
        assert(r[33] == bool_byte(ms[i].is_writable));
    }
    assert(spec_parse_metas(value) matches Ok(p) && p =~= ms);
}

/// The size a validation account entry takes to hold `num_items`
/// descriptors: the entry header, the count, and the records.
pub open spec fn spec_size_of(num_items: int) -> int {
    16 + 34 * num_items
}

/// Returns the number of bytes needed to store one entry holding
/// `num_items` account descriptors; errs if that many records cannot be
/// stored in one entry.
pub fn size_of(num_items: usize) -> (r: Result<usize, ProgramError>)
    ensures
        num_items <= MAX_ACCOUNT_METAS ==> r == Ok::<usize, ProgramError>(
            (16 + 34 * num_items) as usize,
        ),
        num_items > MAX_ACCOUNT_METAS ==> r == Err::<usize, ProgramError>(
            ProgramError::AccountDataTooSmall,
        ),
{
    if num_items > MAX_ACCOUNT_METAS {
        return Err(ProgramError::AccountDataTooSmall);
    }
    Ok(16 + 34 * num_items)
}

/// Appends every byte of `src` to `dst`.
pub fn append_bytes(dst: &mut Vec<u8>, src: &[u8])
    ensures
        final(dst)@ == old(dst)@ + src@,
{
    let mut i: usize = 0;
    while i < src.len()
        invariant
            i <= src@.len(),
            dst@ == old(dst)@ + src@.take(i as int),
        decreases src@.len() - i,
    {
        dst.push(src[i]);
        assert(dst@ =~= old(dst)@ + src@.take(i + 1));
        i = i + 1;
    }
    assert(dst@ =~= old(dst)@ + src@);
}

/// Serializes a descriptor list into the value bytes it is stored as.
fn serialize_metas(metas: &[AccountMeta]) -> (r: Vec<u8>)
    requires
        metas@.len() <= MAX_ACCOUNT_METAS,
    ensures
        r@ == spec_metas_value(metas.deep_view()),
{
    proof {
        vstd::bytes::lemma_auto_spec_u32_to_from_le_bytes();
    }
    let ghost ms = metas.deep_view();
    let n = metas.len();
    let mut buf: Vec<u8> = Vec::new();
    let len_bytes = vstd::bytes::u32_to_le_bytes(n as u32);
    append_bytes(&mut buf, len_bytes.as_slice());
    let mut i: usize = 0;
    while i < n
        invariant
            i <= n,
            n == metas@.len(),
            ms == metas.deep_view(),
            buf@ == vstd::bytes::spec_u32_to_le_bytes(n as u32) + spec_records(
                ms.take(i as int),
            ),
        decreases n - i,
    {
        let ghost before = buf@;
        append_bytes(&mut buf, metas[i].pubkey.bytes.as_slice());
        if metas[i].is_signer {
            buf.push(1);
        } else {
            buf.push(0);
        }
        if metas[i].is_writable {
            buf.push(1);
        } else {
            buf.push(0);
        }
        proof {
            assert(buf@ =~= before + spec_record(ms[i as int]));
            assert(ms.take(i + 1).drop_last() =~= ms.take(i as int));
            assert(ms.take(i + 1).last() == ms[i as int]);
            assert(spec_records(ms.take(i + 1)) == spec_records(ms.take(i as int)) + spec_record(
                ms[i as int],
            ));
            assert(buf@ =~= vstd::bytes::spec_u32_to_le_bytes(n as u32) + spec_records(
                ms.take(i + 1),
            ));
        }
        i = i + 1;
    }
    proof {
        assert(ms.take(n as int) =~= ms);
    }
    buf
}

/// What storing a descriptor list under `disc` does to a buffer: writes
/// one new entry into the first unused slot, or errs without writing when
/// the list is too long for one entry, an entry under `disc` already
/// exists, or the buffer has no room.
pub open spec fn spec_init_metas(data: Seq<u8>, disc: Seq<u8>, ms: Seq<AccountMetaV>) -> Result<
    Seq<u8>,
    ProgramError,
> {
    if ms.len() > MAX_ACCOUNT_METAS {
        Err(ProgramError::AccountDataTooSmall)
    } else {
        tlv::spec_tlv_insert(data, disc, spec_metas_value(ms))
    }
}

/// Stores the descriptor list `metas` in `data` under the discriminator
/// `disc`, in the next unused entry; on failure `data` is unchanged.
pub fn init_with_account_metas(data: &mut Vec<u8>, disc: &[u8; 8], metas: &[AccountMeta]) -> (r:
    Result<(), ProgramError>)
    ensures
        r matches Ok(u) ==> spec_init_metas(old(data)@, disc@, metas.deep_view()) == Ok::<
            Seq<u8>,
            ProgramError,
        >(final(data)@),
        r matches Err(e) ==> spec_init_metas(old(data)@, disc@, metas.deep_view()) == Err::<
            Seq<u8>,
            ProgramError,
        >(e) && final(data)@ == old(data)@,
{
    if metas.len() > MAX_ACCOUNT_METAS {
        return Err(ProgramError::AccountDataTooSmall);
    }
    let value = serialize_metas(metas);
    tlv::tlv_insert(data, disc, value.as_slice())
}

/// The descriptor a supplied account is recorded as.
pub open spec fn spec_info_meta(a: AccountInfoV) -> AccountMetaV {
    AccountMetaV { key: a.key, is_signer: a.is_signer, is_writable: a.is_writable }
}

/// The descriptors of a list of supplied accounts.
pub open spec fn spec_infos_metas(infos: Seq<AccountInfoV>) -> Seq<AccountMetaV> {
    infos.map_values(|a: AccountInfoV| spec_info_meta(a))
}

/// Stores, under `disc`, one descriptor per supplied account, taking each
/// account's address and privileges; on failure `data` is unchanged.
pub fn init_with_account_infos(data: &mut Vec<u8>, disc: &[u8; 8], infos: &[AccountInfo]) -> (r:
    Result<(), ProgramError>)
    ensures
        r matches Ok(u) ==> spec_init_metas(
            old(data)@,
            disc@,
            spec_infos_metas(infos.deep_view()),
        ) == Ok::<Seq<u8>, ProgramError>(final(data)@),
        r matches Err(e) ==> spec_init_metas(
            old(data)@,
            disc@,
            spec_infos_metas(infos.deep_view()),
        ) == Err::<Seq<u8>, ProgramError>(e) && final(data)@ == old(data)@,
{
    let mut metas: Vec<AccountMeta> = Vec::new();
    let mut i: usize = 0;
    while i < infos.len()
        invariant
            i <= infos@.len(),
            metas@.len() == i,
            metas.deep_view() == spec_infos_metas(infos.deep_view()).take(i as int),
        decreases infos@.len() - i,
    {
        let ghost prev = metas.deep_view();
        metas.push(
            AccountMeta {
                pubkey: infos[i].key,
                is_signer: infos[i].is_signer,
                is_writable: infos[i].is_writable,
            },
        );
        proof {
            let target = spec_infos_metas(infos.deep_view());
            assert(metas.deep_view().len() == i + 1);
            assert forall|k: int| 0 <= k < i + 1 implies metas.deep_view()[k] == target.take(
                i + 1,
            )[k] by {
                if k < i {
                    assert(metas.deep_view()[k] == prev[k]);
                    assert(prev[k] == target.take(i as int)[k]);
                } else {
                    assert(metas.deep_view()[k] =~~= spec_info_meta(infos.deep_view()[k]));
                }
            }
            assert(metas.deep_view() =~~= target.take(i + 1));
        }
        i = i + 1;
    }
    assert(metas.deep_view() =~~= spec_infos_metas(infos.deep_view()));
    init_with_account_metas(data, disc, metas.as_slice())
}

/// What reading the descriptor list stored under `disc` returns: the
/// parsed records of the entry's value.
pub open spec fn spec_unpack_metas(data: Seq<u8>, disc: Seq<u8>) -> Result<
    Seq<AccountMetaV>,
    ProgramError,
> {
    match tlv::spec_tlv_get(data, disc) {
        Err(e) => Err(e),
        Ok(value) => spec_parse_metas(value),
    }
}

/// Reads the descriptor list stored in `data` under `disc`.
pub fn unpack_account_metas(data: &[u8], disc: &[u8; 8]) -> (r: Result<
    Vec<AccountMeta>,
    ProgramError,
>)
    ensures
        r matches Ok(ms) ==> spec_unpack_metas(data@, disc@) == Ok::<
            Seq<AccountMetaV>,
            ProgramError,
        >(ms.deep_view()),
        r matches Err(e) ==> spec_unpack_metas(data@, disc@) == Err::<
            Seq<AccountMetaV>,
            ProgramError,
        >(e),
{
    let value = match tlv::tlv_get(data, disc) {
        Ok(v) => v,
        Err(e) => {
            return Err(e);
        },
    };
    if value.len() < 4 {
        return Err(ProgramError::InvalidAccountData);
    }
    proof {
        vstd::bytes::lemma_auto_spec_u32_to_from_le_bytes();
    }
    let vlen = value.len();
    let n = vstd::bytes::u32_from_le_bytes(vstd::slice::slice_subrange(value, 0, 4)) as usize;
    let body = vlen - 4;
    if body / 34 != n || body % 34 != 0 {
        return Err(ProgramError::InvalidAccountData);
    }
    assert(body == 34 * n) by (nonlinear_arith)
        requires
            body / 34 == n && body % 34 == 0,
    ;
    let ghost parsed = Seq::new(
        n as nat,
        |i: int| spec_parse_record(value@.subrange(4 + 34 * i, 4 + 34 * i + 34)),
    );
    let mut out: Vec<AccountMeta> = Vec::new();
    let mut i: usize = 0;
    while i < n
        invariant
            i <= n,
            vlen == value@.len(),
            value@.len() == 4 + 34 * n,
            parsed == Seq::new(
                n as nat,
                |k: int| spec_parse_record(value@.subrange(4 + 34 * k, 4 + 34 * k + 34)),
            ),
            out@.len() == i,
            out.deep_view() == parsed.take(i as int),
        decreases n - i,
    {
        let base = 4 + 34 * i;
        let mut key: [u8; 32] = [0; 32];
        let mut j: usize = 0;
        while j < 32
            invariant
                j <= 32,
                i < n,
                base == 4 + 34 * i,
                vlen == value@.len(),
                value@.len() == 4 + 34 * n,
                forall|m: int| 0 <= m < j ==> key@[m] == value@[base + m],
            decreases 32 - j,
        {
            key[j] = value[base + j];
            j = j + 1;
        }
        let meta = AccountMeta {
            pubkey: Pubkey { bytes: key },
            is_signer: value[base + 32] != 0,
            is_writable: value[base + 33] != 0,
        };
        proof {
            let sub = value@.subrange(4 + 34 * (i as int), 4 + 34 * (i as int) + 34);
            assert(key@ =~= sub.subrange(0, 32));
            assert(value@[base + 32] == sub[32]);
            assert(value@[base + 33] == sub[33]);
            assert(meta@ == spec_parse_record(sub));
        }
        let ghost prev = out.deep_view();
        out.push(meta);
        proof {
            assert(out.deep_view().len() == i + 1);
            assert forall|k: int| 0 <= k < i + 1 implies out.deep_view()[k] == parsed.take(
                i + 1,
            )[k] by {
                if k < i {
                    assert(out.deep_view()[k] == prev[k]);
                    assert(prev[k] == parsed.take(i as int)[k]);
                } else {
                    assert(out.deep_view()[k] == meta@);
                }
            }
            assert(out.deep_view() =~~= parsed.take(i + 1));
        }
        i = i + 1;
    }
    assert(out.deep_view() =~~= parsed);
    Ok(out)
}

/// Whether the supplied accounts agree with the stored descriptor list:
/// the counts are equal and the addresses match one by one, in order.
pub open spec fn spec_accounts_match(stored: Seq<AccountMetaV>, supplied: Seq<AccountInfoV>) -> bool {
    stored.len() == supplied.len() && (forall|i: int|
        0 <= i < stored.len() ==> (#[trigger] stored[i]).key == supplied[i].key)
}

/// Checks the accounts supplied with a call against the stored descriptor
/// list: the counts must agree and the addresses must match one by one, in
/// order. Any disagreement is `IncorrectAccount`.
pub fn check_extra_account_metas(expected: &[AccountMeta], supplied: &[AccountInfo]) -> (r: Result<
    (),
    ProgramError,
>)
    ensures
        r matches Ok(u) ==> spec_accounts_match(expected.deep_view(), supplied.deep_view()),
        r matches Err(e) ==> e == hook_error(HookInterfaceError::IncorrectAccount)
            && !spec_accounts_match(expected.deep_view(), supplied.deep_view()),
{
    if expected.len() != supplied.len() {
        return Err(ProgramError::Custom(HookInterfaceError::IncorrectAccount.code()));
    }
    let mut i: usize = 0;
    while i < expected.len()
        invariant
            i <= expected@.len(),
            expected@.len() == supplied@.len(),
            forall|j: int|
                0 <= j < i ==> (#[trigger] expected.deep_view()[j]).key
                    == supplied.deep_view()[j].key,
        decreases expected@.len() - i,
    {
        if !crate::account::pubkey_eq(&expected[i].pubkey, &supplied[i].key) {
            assert(expected.deep_view()[i as int].key != supplied.deep_view()[i as int].key);
            assert(!spec_accounts_match(expected.deep_view(), supplied.deep_view()));
            return Err(ProgramError::Custom(HookInterfaceError::IncorrectAccount.code()));
        }
        i = i + 1;
    }
    Ok(())
}

} // verus!
