//! Plain models of the account-level values the interface works with:
//! addresses, account descriptors in instructions, and the accounts handed
//! to a program by the host environment.

use vstd::prelude::*;

verus! {

/// A 32-byte account address.
#[derive(Clone, Copy, Debug)]
pub struct Pubkey {
    /// The raw bytes of the address.
    pub bytes: [u8; 32],
}

impl View for Pubkey {
    type V = Seq<u8>;

    open spec fn view(&self) -> Seq<u8> {
        self.bytes@
    }
}

impl Pubkey {
    /// Builds an address from its raw bytes.
    pub fn new(bytes: [u8; 32]) -> (r: Pubkey)
        ensures
            r@ == bytes@,
    {
        Pubkey { bytes }
    }
}

/// Returns whether two addresses hold the same bytes.
pub fn pubkey_eq(a: &Pubkey, b: &Pubkey) -> (r: bool)
    ensures
        r == (a@ == b@),
{
    let mut i: usize = 0;
    while i < 32
        invariant
            i <= 32,
            forall|j: int| 0 <= j < i ==> a.bytes@[j] == b.bytes@[j],
        decreases 32 - i,
    {
        if a.bytes[i] != b.bytes[i] {
            assert(a@ != b@);
            return false;
        }
        i = i + 1;
    }
    assert(a@ =~= b@);
    true
}

/// The mathematical value of an account descriptor.
#[verifier::ext_equal]
pub struct AccountMetaV {
    /// The described account's address bytes.
    pub key: Seq<u8>,
    /// Whether the account must sign the instruction.
    pub is_signer: bool,
    /// Whether the account may be written to.
    pub is_writable: bool,
}

/// Describes one account required by an instruction: its address and the
/// privileges the transaction must grant it.
#[derive(Clone, Copy, Debug)]
pub struct AccountMeta {
    /// The described account's address.
    pub pubkey: Pubkey,
    /// Whether the account must sign the instruction.
    pub is_signer: bool,
    /// Whether the account may be written to.
    pub is_writable: bool,
}

impl View for AccountMeta {
    type V = AccountMetaV;

    open spec fn view(&self) -> AccountMetaV {
        AccountMetaV { key: self.pubkey@, is_signer: self.is_signer, is_writable: self.is_writable }
    }
}

impl DeepView for AccountMeta {
    type V = AccountMetaV;

    open spec fn deep_view(&self) -> AccountMetaV {
        self@
    }
}

impl AccountMeta {
    /// A descriptor for a writable, non-signing account.
    pub fn new(pubkey: Pubkey, signer: bool) -> (r: AccountMeta)
        ensures
            r@ == (AccountMetaV { key: pubkey@, is_signer: signer, is_writable: true }),
    {
        AccountMeta { pubkey, is_signer: signer, is_writable: true }
    }

    /// A descriptor for a read-only account.
    pub fn new_readonly(pubkey: Pubkey, signer: bool) -> (r: AccountMeta)
        ensures
            r@ == (AccountMetaV { key: pubkey@, is_signer: signer, is_writable: false }),
    {
        AccountMeta { pubkey, is_signer: signer, is_writable: false }
    }
}

/// The mathematical value of an account.
#[verifier::ext_equal]
pub struct AccountInfoV {
    /// The account's address bytes.
    pub key: Seq<u8>,
    /// Whether the account signed the current instruction.
    pub is_signer: bool,
    /// Whether the account is writable in the current instruction.
    pub is_writable: bool,
    /// The address bytes of the program that owns the account.
    pub owner: Seq<u8>,
    /// The account's data bytes.
    pub data: Seq<u8>,
}

/// An account as handed to a program by the host environment.
#[derive(Debug)]
pub struct AccountInfo {
    /// The account's address.
    pub key: Pubkey,
    /// Whether the account signed the current instruction.
    pub is_signer: bool,
    /// Whether the account is writable in the current instruction.
    pub is_writable: bool,
    /// The program that owns the account.
    pub owner: Pubkey,
    /// The account's data.
    pub data: Vec<u8>,
}

impl View for AccountInfo {
    type V = AccountInfoV;

    open spec fn view(&self) -> AccountInfoV {
        AccountInfoV {
            key: self.key@,
            is_signer: self.is_signer,
            is_writable: self.is_writable,
            owner: self.owner@,
            data: self.data@,
        }
    }
}

impl DeepView for AccountInfo {
    type V = AccountInfoV;

    open spec fn deep_view(&self) -> AccountInfoV {
        self@
    }
}

} // verus!
