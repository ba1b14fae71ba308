//! The discriminator codec: 8-byte tags for instructions and interface
//! types, derived from a hash of a namespaced name such as
//! `spl-hook-interface:transfer`.

use vstd::prelude::*;

verus! {

/// The number of bytes in a discriminator.
pub const DISCRIMINATOR_LENGTH: usize = 8;

/// The SHA-256 digest of the given bytes, as the host environment's hash
/// primitive computes it.
pub uninterp spec fn sha256_of(data: Seq<u8>) -> Seq<u8>;

/// Relies on `solana_program::hash::hash`: the SHA-256 digest of the input,
/// 32 bytes, a function of the input bytes alone.
#[verifier::external_body]
fn sha256(data: &[u8]) -> (r: [u8; 32])
    ensures
        r@ == sha256_of(data@),
{
    solana_program::hash::hash(data).to_bytes()
}

/// The byte that separates the namespace from the name: an ASCII colon.
pub const NAMESPACE_SEPARATOR: u8 = 58;

/// The bytes that are hashed to derive the discriminator for
/// `namespace:name`.
pub open spec fn discriminator_preimage(namespace: Seq<u8>, name: Seq<u8>) -> Seq<u8> {
    namespace + seq![NAMESPACE_SEPARATOR] + name
}

/// The discriminator for `namespace:name`: the first 8 bytes of the hash
/// of the namespaced name.
pub open spec fn spec_discriminator(namespace: Seq<u8>, name: Seq<u8>) -> Seq<u8> {
    sha256_of(discriminator_preimage(namespace, name)).take(8)
}

/// Returns the 8-byte discriminator for `namespace:name`. The result is a
/// function of the two byte strings alone, so repeated calls agree.
pub fn discriminator(namespace: &[u8], name: &[u8]) -> (r: [u8; 8])
    ensures
        r@ == spec_discriminator(namespace@, name@),
{
    let mut preimage: Vec<u8> = Vec::new();
    let mut i: usize = 0;
    while i < namespace.len()
        invariant
            i <= namespace@.len(),
            preimage@ == namespace@.take(i as int),
        decreases namespace@.len() - i,
    {
        preimage.push(namespace[i]);
        assert(preimage@ =~= namespace@.take(i + 1));
        i = i + 1;
    }
    assert(preimage@ =~= namespace@);
    preimage.push(NAMESPACE_SEPARATOR);
    let mut j: usize = 0;
    while j < name.len()
        invariant
            j <= name@.len(),
            preimage@ == namespace@ + seq![NAMESPACE_SEPARATOR] + name@.take(j as int),
        decreases name@.len() - j,
    {
        preimage.push(name[j]);
        assert(preimage@ =~= namespace@ + seq![NAMESPACE_SEPARATOR] + name@.take(j + 1));
        j = j + 1;
    }
    assert(preimage@ =~= discriminator_preimage(namespace@, name@));
    let digest = sha256(preimage.as_slice());
    let mut out: [u8; 8] = [0; 8];
    let mut k: usize = 0;
    while k < 8
        invariant
            k <= 8,
            digest@ == sha256_of(discriminator_preimage(namespace@, name@)),
            forall|m: int| 0 <= m < k ==> out@[m] == digest@[m],
        decreases 8 - k,
    {
        out[k] = digest[k];
        k = k + 1;
    }
    assert(out@ =~= spec_discriminator(namespace@, name@));
    out
}

} // verus!
