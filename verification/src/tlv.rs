//! The type-length-value container stored in a validation account: any
//! number of entries laid out one after another, each an 8-byte
//! discriminator, a 4-byte little-endian length, and that many value bytes.
//! A zeroed discriminator marks the first unused slot; nothing is written
//! after it.

use vstd::prelude::*;

use crate::error::ProgramError;

verus! {

/// The discriminator marking an unused slot.
pub const UNINITIALIZED_DISCRIMINATOR: [u8; 8] = [0, 0, 0, 0, 0, 0, 0, 0];

/// The bytes of a discriminator slot that has never been written.
pub open spec fn zero_disc() -> Seq<u8> {
    UNINITIALIZED_DISCRIMINATOR@
}

/// The number of bytes an entry takes before its value: discriminator
/// plus length.
pub const TLV_HEADER_LENGTH: usize = 12;

/// Walks the entries of `data` from offset `s` looking for `disc`.
///
/// Returns the offset of the entry whose discriminator is `disc`, or, when
/// `init` is set, of the first unused slot. Running past the end of the
/// buffer, or into an entry whose header or value would not fit, is
/// `InvalidAccountData`; finding an unused slot when not initializing is
/// `TypeNotFound`.
pub open spec fn spec_tlv_find(data: Seq<u8>, disc: Seq<u8>, init: bool, s: int) -> Result<
    int,
    ProgramError,
>
    decreases data.len() - s,
{
    if s + 12 > data.len() {
        Err(ProgramError::InvalidAccountData)
    } else {
        let d = data.subrange(s, s + 8);
        if d == disc {
            Ok(s)
        } else if d == zero_disc() {
            if init {
                Ok(s)
            } else {
                Err(ProgramError::TypeNotFound)
            }
        } else {
            let len = vstd::bytes::spec_u32_from_le_bytes(data.subrange(s + 8, s + 12)) as int;
            if s + 12 + len > data.len() {
                Err(ProgramError::InvalidAccountData)
            } else {
                spec_tlv_find(data, disc, init, s + 12 + len)
            }
        }
    }
}

/// The value bytes stored in `data` under `disc`.
pub open spec fn spec_tlv_get(data: Seq<u8>, disc: Seq<u8>) -> Result<Seq<u8>, ProgramError> {
    match spec_tlv_find(data, disc, false, 0) {
        Err(e) => Err(e),
        Ok(s) => {
            let len = vstd::bytes::spec_u32_from_le_bytes(data.subrange(s + 8, s + 12)) as int;
            if s + 12 + len > data.len() {
                Err(ProgramError::InvalidAccountData)
            } else {
                Ok(data.subrange(s + 12, s + 12 + len))
            }
        },
    }
}

/// `data` with `src` written over the bytes starting at `at`.
pub open spec fn spec_splice(data: Seq<u8>, at: int, src: Seq<u8>) -> Seq<u8> {
    data.map(|i: int, b: u8| if at <= i < at + src.len() { src[i - at] } else { b })
}

/// The bytes of one entry: discriminator, little-endian length, value.
pub open spec fn spec_tlv_entry(disc: Seq<u8>, value: Seq<u8>) -> Seq<u8> {
    disc + vstd::bytes::spec_u32_to_le_bytes(value.len() as u32) + value
}

/// `data` after writing a new entry `(disc, value)` into its first unused
/// slot.
///
/// Fails with `TypeAlreadyExists` if an entry under `disc` is already
/// present, with `AccountDataTooSmall` if the value's length does not fit
/// the length field, and with `InvalidAccountData` if the buffer has no
/// room for the entry.
pub open spec fn spec_tlv_insert(data: Seq<u8>, disc: Seq<u8>, value: Seq<u8>) -> Result<
    Seq<u8>,
    ProgramError,
> {
    match spec_tlv_find(data, disc, true, 0) {
        Err(e) => Err(e),
        Ok(s) => {
            if data.subrange(s, s + 8) == disc {
                Err(ProgramError::TypeAlreadyExists)
            } else if value.len() > u32::MAX {
                Err(ProgramError::AccountDataTooSmall)
            } else if s + 12 + value.len() > data.len() {
                Err(ProgramError::InvalidAccountData)
            } else {
                Ok(spec_splice(data, s, spec_tlv_entry(disc, value)))
            }
        },
    }
}

/// A found offset lies within the buffer, at or past where the walk
/// started, and holds either the discriminator searched for or an unused
/// slot reached while initializing.
pub proof fn lemma_tlv_find_ok(data: Seq<u8>, disc: Seq<u8>, init: bool, s: int, t: int)
    requires
        0 <= s,
        spec_tlv_find(data, disc, init, s) == Ok::<int, ProgramError>(t),
    ensures
        s <= t,
        t + 12 <= data.len(),
        data.subrange(t, t + 8) == disc || (init && data.subrange(t, t + 8) == zero_disc()),
    decreases data.len() - s,
{
    let d = data.subrange(s, s + 8);
    if s + 12 > data.len() {
    } else if d == disc {
    } else if d == zero_disc() {
    } else {
        let len = vstd::bytes::spec_u32_from_le_bytes(data.subrange(s + 8, s + 12)) as int;
        if s + 12 + len <= data.len() {
            lemma_tlv_find_ok(data, disc, init, s + 12 + len, t);
        }
    }
}

/// Compares 8 bytes of `data` starting at `at` with `pat`.
pub fn bytes8_eq_at(data: &[u8], at: usize, pat: &[u8; 8]) -> (r: bool)
    requires
        at + 8 <= data@.len(),
    ensures
        r == (data@.subrange(at as int, at as int + 8) == pat@),
{
    let dlen = data.len();
    let mut i: usize = 0;
    while i < 8
        invariant
            i <= 8,
            dlen == data@.len(),
            at + 8 <= data@.len(),
            forall|j: int| 0 <= j < i ==> data@[at + j] == pat@[j],
        decreases 8 - i,
    {
        if data[at + i] != pat[i] {
            assert(data@.subrange(at as int, at as int + 8)[i as int] != pat@[i as int]);
            return false;
        }
        i = i + 1;
    }
    assert(data@.subrange(at as int, at as int + 8) =~= pat@);
    true
}

/// Finds the entry holding `disc` (or, when `init` is set, the first
/// unused slot) and returns its offset, exactly as `spec_tlv_find` walks
/// the buffer from its start.
pub fn tlv_find(data: &[u8], disc: &[u8; 8], init: bool) -> (r: Result<usize, ProgramError>)
    ensures
        r matches Ok(s) ==> spec_tlv_find(data@, disc@, init, 0) == Ok::<int, ProgramError>(
            s as int,
        ),
        r matches Err(e) ==> spec_tlv_find(data@, disc@, init, 0) == Err::<int, ProgramError>(e),
{
    let mut s: usize = 0;
    loop
        invariant
            s <= data@.len(),
            spec_tlv_find(data@, disc@, init, 0) == spec_tlv_find(data@, disc@, init, s as int),
        decreases data@.len() - s,
    {
        if data.len() < 12 || s > data.len() - 12 {
            return Err(ProgramError::InvalidAccountData);
        }
        if bytes8_eq_at(data, s, disc) {
            return Ok(s);
        }
        if bytes8_eq_at(data, s, &UNINITIALIZED_DISCRIMINATOR) {
            if init {
                return Ok(s);
            } else {
                return Err(ProgramError::TypeNotFound);
            }
        }
        let len_bytes = vstd::slice::slice_subrange(data, s + 8, s + 12);
        let len = vstd::bytes::u32_from_le_bytes(len_bytes) as usize;
        if len > data.len() - s - 12 {
            return Err(ProgramError::InvalidAccountData);
        }
        s = s + 12 + len;
    }
}

/// Returns the value bytes stored in `data` under `disc`.
pub fn tlv_get<'a>(data: &'a [u8], disc: &[u8; 8]) -> (r: Result<&'a [u8], ProgramError>)
    ensures
        r matches Ok(v) ==> spec_tlv_get(data@, disc@) == Ok::<Seq<u8>, ProgramError>(v@),
        r matches Err(e) ==> spec_tlv_get(data@, disc@) == Err::<Seq<u8>, ProgramError>(e),
{
    let s = match tlv_find(data, disc, false) {
        Ok(s) => s,
        Err(e) => {
            return Err(e);
        },
    };
    proof {
        lemma_tlv_find_ok(data@, disc@, false, 0, s as int);
    }
    let dlen = data.len();
    let len_bytes = vstd::slice::slice_subrange(data, s + 8, s + 12);
    let len = vstd::bytes::u32_from_le_bytes(len_bytes) as usize;
    if len > data.len() - s - 12 {
        return Err(ProgramError::InvalidAccountData);
    }
    Ok(vstd::slice::slice_subrange(data, s + 12, s + 12 + len))
}

/// Writes `src` over the bytes of `data` starting at `at`.
pub fn write_at(data: &mut Vec<u8>, at: usize, src: &[u8])
    requires
        at + src@.len() <= old(data)@.len(),
    ensures
        final(data)@.len() == old(data)@.len(),
        forall|j: int|
            0 <= j < old(data)@.len() ==> final(data)@[j] == (if at <= j < at + src@.len() {
                src@[j - at]
            } else {
                old(data)@[j]
            }),
{
    let dlen = data.len();
    let mut i: usize = 0;
    while i < src.len()
        invariant
            i <= src@.len(),
            dlen == old(data)@.len(),
            at + src@.len() <= old(data)@.len(),
            data@.len() == old(data)@.len(),
            forall|j: int|
                0 <= j < old(data)@.len() ==> data@[j] == (if at <= j < at + i {
                    src@[j - at]
                } else {
                    old(data)@[j]
                }),
        decreases src@.len() - i,
    {
        data[at + i] = src[i];
        i = i + 1;
    }
}

/// Writes a new entry `(disc, value)` into the first unused slot of
/// `data`, leaving the buffer unchanged on failure.
pub fn tlv_insert(data: &mut Vec<u8>, disc: &[u8; 8], value: &[u8]) -> (r: Result<
    (),
    ProgramError,
>)
    ensures
        r matches Ok(u) ==> spec_tlv_insert(old(data)@, disc@, value@) == Ok::<
            Seq<u8>,
            ProgramError,
        >(final(data)@),
        r matches Err(e) ==> spec_tlv_insert(old(data)@, disc@, value@) == Err::<
            Seq<u8>,
            ProgramError,
        >(e) && final(data)@ == old(data)@,
{
    let s = match tlv_find(data.as_slice(), disc, true) {
        Ok(s) => s,
        Err(e) => {
            return Err(e);
        },
    };
    proof {
        lemma_tlv_find_ok(data@, disc@, true, 0, s as int);
    }
    if bytes8_eq_at(data.as_slice(), s, disc) {
        return Err(ProgramError::TypeAlreadyExists);
    }
    if value.len() > (u32::MAX as usize) {
        return Err(ProgramError::AccountDataTooSmall);
    }
    if value.len() > data.len() - s - 12 {
        return Err(ProgramError::InvalidAccountData);
    }
    proof {
        vstd::bytes::lemma_auto_spec_u32_to_from_le_bytes();
    }
    let len_bytes = vstd::bytes::u32_to_le_bytes(value.len() as u32);
    write_at(data, s, disc.as_slice());
    write_at(data, s + 8, len_bytes.as_slice());
    write_at(data, s + 12, value);
    proof {
        let entry = spec_tlv_entry(disc@, value@);
        assert(entry.len() == 12 + value@.len());
        assert forall|j: int| 0 <= j < old(data)@.len() implies data@[j] == spec_splice(
            old(data)@,
            s as int,
            entry,
        )[j] by {
            if s <= j < s + 8 {
                assert(entry[j - s] == disc@[j - s]);
            } else if s + 8 <= j < s + 12 {
                assert(entry[j - s] == vstd::bytes::spec_u32_to_le_bytes(value@.len() as u32)[j - s
                    - 8]);
            } else if s + 12 <= j < s + 12 + value@.len() {
                assert(entry[j - s] == value@[j - s - 12]);
            }
        }
        assert(data@ =~= spec_splice(old(data)@, s as int, entry));
    }
    Ok(())
}


/// After splicing the new entry into the unused slot at `sstar`, the walk
/// for `disc` from any point `s` on the old walk's path finds `sstar`.
proof fn lemma_splice_find_self(data: Seq<u8>, disc: Seq<u8>, value: Seq<u8>, sstar: int, s: int)
    requires
        0 <= s,
        disc.len() == 8,
        disc != zero_disc(),
        value.len() <= u32::MAX,
        spec_tlv_find(data, disc, true, s) == Ok::<int, ProgramError>(sstar),
        data.subrange(sstar, sstar + 8) == zero_disc(),
        sstar + 12 + value.len() <= data.len(),
    ensures
        spec_tlv_find(spec_splice(data, sstar, spec_tlv_entry(disc, value)), disc, false, s)
            == Ok::<int, ProgramError>(sstar),
    decreases data.len() - s,
{
    vstd::bytes::lemma_auto_spec_u32_to_from_le_bytes();
    let entry = spec_tlv_entry(disc, value);
    let data2 = spec_splice(data, sstar, entry);
    assert(entry.len() == 12 + value.len());
    assert(data2.len() == data.len());
    lemma_tlv_find_ok(data, disc, true, s, sstar);
    let d = data.subrange(s, s + 8);
    if d == disc {
        assert(sstar == s);
        assert(false);
    } else if d == zero_disc() {
        assert(sstar == s);
        assert(data2.subrange(s, s + 8) =~= disc);
    } else {
        let len = vstd::bytes::spec_u32_from_le_bytes(data.subrange(s + 8, s + 12)) as int;
        assert(s + 12 + len <= data.len());
        let next = s + 12 + len;
        assert(spec_tlv_find(data, disc, true, next) == Ok::<int, ProgramError>(sstar));
        lemma_tlv_find_ok(data, disc, true, next, sstar);
        assert(data2.subrange(s, s + 8) =~= d);
        assert(data2.subrange(s + 8, s + 12) =~= data.subrange(s + 8, s + 12));
        lemma_splice_find_self(data, disc, value, sstar, next);
    }
}

/// Splicing the new entry into the unused slot at `sstar` does not disturb
/// an entry already found under another discriminator: the walk still
/// finds it at the same offset, and its header and value bytes, all of
/// which lie before `sstar`, are unchanged.
proof fn lemma_splice_find_other(
    data: Seq<u8>,
    disc: Seq<u8>,
    value: Seq<u8>,
    disc2: Seq<u8>,
    sstar: int,
    s: int,
    t: int,
)
    requires
        0 <= s,
        disc.len() == 8,
        disc2.len() == 8,
        disc != zero_disc(),
        disc2 != zero_disc(),
        disc2 != disc,
        value.len() <= u32::MAX,
        spec_tlv_find(data, disc, true, s) == Ok::<int, ProgramError>(sstar),
        data.subrange(sstar, sstar + 8) == zero_disc(),
        sstar + 12 + value.len() <= data.len(),
        spec_tlv_find(data, disc2, false, s) == Ok::<int, ProgramError>(t),
    ensures
        spec_tlv_find(spec_splice(data, sstar, spec_tlv_entry(disc, value)), disc2, false, s)
            == Ok::<int, ProgramError>(t),
        t + 12 + vstd::bytes::spec_u32_from_le_bytes(data.subrange(t + 8, t + 12)) <= sstar,
        spec_splice(data, sstar, spec_tlv_entry(disc, value)).subrange(
            t,
            t + 12 + vstd::bytes::spec_u32_from_le_bytes(data.subrange(t + 8, t + 12)),
        ) == data.subrange(
            t,
            t + 12 + vstd::bytes::spec_u32_from_le_bytes(data.subrange(t + 8, t + 12)),
        ),
    decreases data.len() - s,
{
    vstd::bytes::lemma_auto_spec_u32_to_from_le_bytes();
    let entry = spec_tlv_entry(disc, value);
    let data2 = spec_splice(data, sstar, entry);
    assert(entry.len() == 12 + value.len());
    assert(data2.len() == data.len());
    lemma_tlv_find_ok(data, disc, true, s, sstar);
    lemma_tlv_find_ok(data, disc2, false, s, t);
    let d = data.subrange(s, s + 8);
    if d == disc2 {
        assert(t == s);
        let len = vstd::bytes::spec_u32_from_le_bytes(data.subrange(s + 8, s + 12)) as int;
        assert(s + 12 + len <= data.len());
        let next = s + 12 + len;
        assert(spec_tlv_find(data, disc, true, next) == Ok::<int, ProgramError>(sstar));
        lemma_tlv_find_ok(data, disc, true, next, sstar);
        assert(next <= sstar);
        assert(data2.subrange(t, next) =~= data.subrange(t, next));
        assert(data2.subrange(s, s + 8) =~= d);
    } else if d == zero_disc() {
        assert(false);
    } else if d == disc {
        assert(sstar == s);
        assert(false);
    } else {
        let len = vstd::bytes::spec_u32_from_le_bytes(data.subrange(s + 8, s + 12)) as int;
        assert(s + 12 + len <= data.len());
        let next = s + 12 + len;
        assert(spec_tlv_find(data, disc, true, next) == Ok::<int, ProgramError>(sstar));
        assert(spec_tlv_find(data, disc2, false, next) == Ok::<int, ProgramError>(t));
        lemma_tlv_find_ok(data, disc, true, next, sstar);
        assert(data2.subrange(s, s + 8) =~= d);
        assert(data2.subrange(s + 8, s + 12) =~= data.subrange(s + 8, s + 12));
        lemma_splice_find_other(data, disc, value, disc2, sstar, next, t);
    }
}

/// Reading back what was written: after a new entry `(disc, value)` is
/// inserted, looking `disc` up returns exactly `value`.
pub proof fn lemma_tlv_insert_get(data: Seq<u8>, disc: Seq<u8>, value: Seq<u8>, data2: Seq<u8>)
    requires
        disc.len() == 8,
        disc != zero_disc(),
        spec_tlv_insert(data, disc, value) == Ok::<Seq<u8>, ProgramError>(data2),
    ensures
        spec_tlv_get(data2, disc) == Ok::<Seq<u8>, ProgramError>(value),
{
    vstd::bytes::lemma_auto_spec_u32_to_from_le_bytes();
    let entry = spec_tlv_entry(disc, value);
    match spec_tlv_find(data, disc, true, 0) {
        Err(_) => {
            assert(false);
        },
        Ok(sstar) => {
            lemma_tlv_find_ok(data, disc, true, 0, sstar);
            assert(data.subrange(sstar, sstar + 8) == zero_disc());
            assert(value.len() <= u32::MAX);
            assert(sstar + 12 + value.len() <= data.len());
            assert(data2 == spec_splice(data, sstar, entry));
            lemma_splice_find_self(data, disc, value, sstar, 0);
            assert(entry.len() == 12 + value.len());
            assert(data2.subrange(sstar + 8, sstar + 12) =~= vstd::bytes::spec_u32_to_le_bytes(
                value.len() as u32,
            ));
            assert(vstd::bytes::spec_u32_from_le_bytes(data2.subrange(sstar + 8, sstar + 12))
                == value.len());
            assert(data2.subrange(sstar + 12, sstar + 12 + value.len()) =~= value);
        },
    }
}

/// Inserting a new entry leaves every entry already stored under another
/// discriminator readable with the same value.
pub proof fn lemma_tlv_insert_preserves_get(
    data: Seq<u8>,
    disc: Seq<u8>,
    value: Seq<u8>,
    data2: Seq<u8>,
    disc2: Seq<u8>,
)
    requires
        disc.len() == 8,
        disc2.len() == 8,
        disc != zero_disc(),
        disc2 != zero_disc(),
        disc2 != disc,
        spec_tlv_insert(data, disc, value) == Ok::<Seq<u8>, ProgramError>(data2),
        spec_tlv_get(data, disc2) matches Ok(_),
    ensures
        spec_tlv_get(data2, disc2) == spec_tlv_get(data, disc2),
{
    vstd::bytes::lemma_auto_spec_u32_to_from_le_bytes();
    let entry = spec_tlv_entry(disc, value);
    match spec_tlv_find(data, disc, true, 0) {
        Err(_) => {
            assert(false);
        },
        Ok(sstar) => {
            lemma_tlv_find_ok(data, disc, true, 0, sstar);
            match spec_tlv_find(data, disc2, false, 0) {
                Err(_) => {
                    assert(false);
                },
                Ok(t) => {
                    lemma_splice_find_other(data, disc, value, disc2, sstar, 0, t);
                    let len_t = vstd::bytes::spec_u32_from_le_bytes(
                        data.subrange(t + 8, t + 12),
                    ) as int;
                    lemma_tlv_find_ok(data, disc2, false, 0, t);
                    assert(data2.subrange(t, t + 12 + len_t) == data.subrange(t, t + 12 + len_t));
                    assert forall|j: int| t <= j < t + 12 + len_t implies data2[j] == data[j] by {
                        assert(data2.subrange(t, t + 12 + len_t)[j - t] == data2[j]);
                        assert(data.subrange(t, t + 12 + len_t)[j - t] == data[j]);
                    }
                    assert(data2.subrange(t + 8, t + 12) =~= data.subrange(t + 8, t + 12));
                    assert(data2.subrange(t + 12, t + 12 + len_t) =~= data.subrange(
                        t + 12,
                        t + 12 + len_t,
                    ));
                },
            }
        },
    }
}


/// Inserting into an all-zero buffer with room for the entry succeeds and
/// writes the entry at the buffer's start.
pub proof fn lemma_tlv_insert_into_zeros(zeros: Seq<u8>, disc: Seq<u8>, value: Seq<u8>)
    requires
        forall|i: int| 0 <= i < zeros.len() ==> zeros[i] == 0,
        disc.len() == 8,
        disc != zero_disc(),
        value.len() <= u32::MAX,
        12 + value.len() <= zeros.len(),
    ensures
        spec_tlv_insert(zeros, disc, value) == Ok::<Seq<u8>, ProgramError>(
            spec_splice(zeros, 0, spec_tlv_entry(disc, value)),
        ),
{
    assert(zeros.subrange(0, 8) =~= zero_disc());
    assert(spec_tlv_find(zeros, disc, true, 0) == Ok::<int, ProgramError>(0));
}

/// A second insertion, after one entry was written into an all-zero
/// buffer, succeeds when the buffer has room for both entries, and writes
/// the new entry right after the first.
pub proof fn lemma_tlv_insert_after_first(
    zeros: Seq<u8>,
    disc1: Seq<u8>,
    value1: Seq<u8>,
    disc2: Seq<u8>,
    value2: Seq<u8>,
)
    requires
        forall|i: int| 0 <= i < zeros.len() ==> zeros[i] == 0,
        disc1.len() == 8,
        disc2.len() == 8,
        disc1 != zero_disc(),
        disc2 != zero_disc(),
        disc1 != disc2,
        value1.len() <= u32::MAX,
        value2.len() <= u32::MAX,
        12 + value1.len() + 12 + value2.len() <= zeros.len(),
    ensures
        ({
            let d1 = spec_splice(zeros, 0, spec_tlv_entry(disc1, value1));
            spec_tlv_insert(d1, disc2, value2) == Ok::<Seq<u8>, ProgramError>(
                spec_splice(d1, 12 + value1.len() as int, spec_tlv_entry(disc2, value2)),
            )
        }),
{
    vstd::bytes::lemma_auto_spec_u32_to_from_le_bytes();
    let e1 = spec_tlv_entry(disc1, value1);
    let d1 = spec_splice(zeros, 0, e1);
    assert(e1.len() == 12 + value1.len());
    assert(d1.len() == zeros.len());
    let next = 12 + value1.len() as int;
    assert(d1.subrange(0, 8) =~= disc1);
    assert(d1.subrange(8, 12) =~= vstd::bytes::spec_u32_to_le_bytes(value1.len() as u32));
    assert(vstd::bytes::spec_u32_from_le_bytes(d1.subrange(8, 12)) == value1.len());
    assert(d1.subrange(next, next + 8) =~= zero_disc());
    assert(spec_tlv_find(d1, disc2, true, next) == Ok::<int, ProgramError>(next));
    assert(spec_tlv_find(d1, disc2, true, 0) == Ok::<int, ProgramError>(next));
}
} // verus!
