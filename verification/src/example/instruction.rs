//! The example program's instructions

use vstd::prelude::*;

use crate::error::ProgramError;
use crate::instruction::init::{spec_pack_init, INITIALIZE_EXTRA_ACCOUNT_METAS_DISCRIMINATOR};
use crate::instruction::mint_to::{spec_pack_mint_to, MINT_TO_DISCRIMINATOR};
use crate::instruction::transfer::{spec_pack_transfer, TRANSFER_DISCRIMINATOR};
use crate::instruction::{
    append_discriminator, matches_discriminator, unpack_with_discriminator_checked,
    HookInterfaceInstruction,
};

verus! {

/// First 8 bytes of the hash of `spl-hook-interface-example:arbitrary`.
pub const ARBITRARY_DISCRIMINATOR: [u8; 8] = [159, 188, 87, 78, 151, 190, 23, 195];

/// Instruction for demonstrating an instruction specific to this program,
/// beside those of the interface.
#[derive(Clone, Copy, Debug, PartialEq, Eq, Structural)]
pub struct Arbitrary {}

impl HookInterfaceInstruction for Arbitrary {
    open spec fn spec_discriminator() -> Seq<u8> {
        ARBITRARY_DISCRIMINATOR@
    }

    fn discriminator_bytes() -> (r: [u8; 8]) {
        ARBITRARY_DISCRIMINATOR
    }
}

/// The program's instructions
#[derive(Clone, Copy, Debug, PartialEq, Eq, Structural)]
pub enum MyInstruction {
    /// Initializes the extra account metas on an account, writing into
    /// the first open TLV space.
    ///
    /// Accounts expected by this instruction:
    ///
    ///   0. `[w]` Account with extra account metas
    ///   1. `[]` Mint
    ///   2. `[s]` Mint authority
    ///   3. `[]` System program
    ///   4..4+M `[]` `M` additional accounts, to be written to validation data
    ///
    Init,
    /// Runs additional mint logic.
    ///
    /// Accounts expected by this instruction:
    ///
    ///   0. `[]` Token mint
    ///   1. `[]` Destination account
    ///   2. `[]` Mint authority
    ///   3. `[]` Validation account
    ///   4..4+M `[]` `M` additional accounts, written in validation account data
    ///
    MintTo {
        /// Amount of tokens to mint
        amount: u64,
    },
    /// Runs additional transfer logic.
    ///
    /// Accounts expected by this instruction:
    ///
    ///   0. `[]` Source account
    ///   1. `[]` Token mint
    ///   2. `[]` Destination account
    ///   3. `[]` Source account's owner/delegate
    ///   4. `[]` Validation account
    ///   5..5+M `[]` `M` additional accounts, written in validation account data
    ///
    Transfer {
        /// Amount of tokens to transfer
        amount: u64,
    },
    /// Arbitrary additional custom instruction for demonstration.
    ///
    /// Accounts expected by this instruction:
    ///
    ///   0. `[]` Token mint
    ///   1. `[]` Mint authority
    ///
    Arbitrary {
        /// Arbitrary argument for demonstration.
        arg: u8,
    },
}

/// The wire bytes of an instruction: its variant's discriminator, then its
/// fixed-width little-endian payload.
pub open spec fn spec_pack(ins: MyInstruction) -> Seq<u8> {
    match ins {
        MyInstruction::Init => spec_pack_init(),
        MyInstruction::MintTo { amount } => spec_pack_mint_to(amount),
        MyInstruction::Transfer { amount } => spec_pack_transfer(amount),
        MyInstruction::Arbitrary { arg } => ARBITRARY_DISCRIMINATOR@ + seq![arg],
    }
}

/// The instruction carried by the wire bytes `data`: input shorter than a
/// discriminator, an unknown discriminator, or a payload shorter than the
/// matched variant needs is `InvalidInstructionData`. Bytes past the
/// payload are ignored.
pub open spec fn spec_unpack(data: Seq<u8>) -> Result<MyInstruction, ProgramError> {
    if data.len() < 8 {
        Err(ProgramError::InvalidInstructionData)
    } else {
        let d = data.take(8);
        let rest = data.skip(8);
        if d == INITIALIZE_EXTRA_ACCOUNT_METAS_DISCRIMINATOR@ {
            Ok(MyInstruction::Init)
        } else if d == MINT_TO_DISCRIMINATOR@ {
            if rest.len() < 8 {
                Err(ProgramError::InvalidInstructionData)
            } else {
                Ok(
                    MyInstruction::MintTo {
                        amount: vstd::bytes::spec_u64_from_le_bytes(rest.take(8)),
                    },
                )
            }
        } else if d == TRANSFER_DISCRIMINATOR@ {
            if rest.len() < 8 {
                Err(ProgramError::InvalidInstructionData)
            } else {
                Ok(
                    MyInstruction::Transfer {
                        amount: vstd::bytes::spec_u64_from_le_bytes(rest.take(8)),
                    },
                )
            }
        } else if d == ARBITRARY_DISCRIMINATOR@ {
            if rest.len() < 1 {
                Err(ProgramError::InvalidInstructionData)
            } else {
                Ok(MyInstruction::Arbitrary { arg: rest[0] })
            }
        } else {
            Err(ProgramError::InvalidInstructionData)
        }
    }
}

impl MyInstruction {
    /// Unpacks a byte buffer into an instruction.
    pub fn unpack(input: &[u8]) -> (r: Result<MyInstruction, ProgramError>)
        ensures
            r matches Ok(i) ==> spec_unpack(input@) == Ok::<MyInstruction, ProgramError>(i),
            r matches Err(e) ==> spec_unpack(input@) == Err::<MyInstruction, ProgramError>(e),
    {
        let (discriminator, rest) = match unpack_with_discriminator_checked(input) {
            Ok(p) => p,
            Err(e) => {
                return Err(e);
            },
        };
        proof {
            assert(discriminator@.take(8) =~= discriminator@);
        }
        if matches_discriminator(discriminator, &INITIALIZE_EXTRA_ACCOUNT_METAS_DISCRIMINATOR) {
            return Ok(MyInstruction::Init);
        }
        if matches_discriminator(discriminator, &MINT_TO_DISCRIMINATOR) {
            if rest.len() < 8 {
                return Err(ProgramError::InvalidInstructionData);
            }
            proof {
                vstd::bytes::lemma_auto_spec_u64_to_from_le_bytes();
                assert(rest@.subrange(0, 8) =~= input@.skip(8).take(8));
            }
            let amount = vstd::bytes::u64_from_le_bytes(vstd::slice::slice_subrange(rest, 0, 8));
            return Ok(MyInstruction::MintTo { amount });
        }
        if matches_discriminator(discriminator, &TRANSFER_DISCRIMINATOR) {
            if rest.len() < 8 {
                return Err(ProgramError::InvalidInstructionData);
            }
            proof {
                vstd::bytes::lemma_auto_spec_u64_to_from_le_bytes();
                assert(rest@.subrange(0, 8) =~= input@.skip(8).take(8));
            }
            let amount = vstd::bytes::u64_from_le_bytes(vstd::slice::slice_subrange(rest, 0, 8));
            return Ok(MyInstruction::Transfer { amount });
        }
        if matches_discriminator(discriminator, &ARBITRARY_DISCRIMINATOR) {
            if rest.len() < 1 {
                return Err(ProgramError::InvalidInstructionData);
            }
            let arg = rest[0];
            return Ok(MyInstruction::Arbitrary { arg });
        }
        Err(ProgramError::InvalidInstructionData)
    }

    /// Packs an instruction into a byte buffer.
    pub fn pack(&self) -> (r: Vec<u8>)
        ensures
            r@ == spec_pack(*self),
    {
        let mut buf: Vec<u8> = Vec::new();
        match self {
            MyInstruction::Init => {
                append_discriminator(&mut buf, &INITIALIZE_EXTRA_ACCOUNT_METAS_DISCRIMINATOR);
            },
            MyInstruction::MintTo { amount } => {
                append_discriminator(&mut buf, &MINT_TO_DISCRIMINATOR);
                crate::instruction::append_u64_le(&mut buf, *amount);
            },
            MyInstruction::Transfer { amount } => {
                append_discriminator(&mut buf, &TRANSFER_DISCRIMINATOR);
                crate::instruction::append_u64_le(&mut buf, *amount);
            },
            MyInstruction::Arbitrary { arg } => {
                append_discriminator(&mut buf, &ARBITRARY_DISCRIMINATOR);
                buf.push(*arg);
                assert(buf@ =~= ARBITRARY_DISCRIMINATOR@ + seq![*arg]);
            },
        }
        buf
    }
}

/// The four discriminators the example program knows are pairwise
/// distinct: no wire instruction can be taken for another.
pub proof fn lemma_known_discriminators_distinct()
    ensures
        INITIALIZE_EXTRA_ACCOUNT_METAS_DISCRIMINATOR@ != MINT_TO_DISCRIMINATOR@,
        INITIALIZE_EXTRA_ACCOUNT_METAS_DISCRIMINATOR@ != TRANSFER_DISCRIMINATOR@,
        INITIALIZE_EXTRA_ACCOUNT_METAS_DISCRIMINATOR@ != ARBITRARY_DISCRIMINATOR@,
        MINT_TO_DISCRIMINATOR@ != TRANSFER_DISCRIMINATOR@,
        MINT_TO_DISCRIMINATOR@ != ARBITRARY_DISCRIMINATOR@,
        TRANSFER_DISCRIMINATOR@ != ARBITRARY_DISCRIMINATOR@,
{
    assert(INITIALIZE_EXTRA_ACCOUNT_METAS_DISCRIMINATOR@[0] == 233);
    assert(MINT_TO_DISCRIMINATOR@[0] == 143);
    assert(TRANSFER_DISCRIMINATOR@[0] == 31);
    assert(ARBITRARY_DISCRIMINATOR@[0] == 159);
}

/// Round trip: unpacking a packed instruction returns the instruction,
/// whichever variant it is.
pub proof fn lemma_unpack_pack(ins: MyInstruction)
    ensures
        spec_unpack(spec_pack(ins)) == Ok::<MyInstruction, ProgramError>(ins),
{
    vstd::bytes::lemma_auto_spec_u64_to_from_le_bytes();
    lemma_known_discriminators_distinct();
    let data = spec_pack(ins);
    match ins {
        MyInstruction::Init => {
            assert(data.take(8) =~= INITIALIZE_EXTRA_ACCOUNT_METAS_DISCRIMINATOR@);
        },
        MyInstruction::MintTo { amount } => {
            assert(data.take(8) =~= MINT_TO_DISCRIMINATOR@);
            assert(data.skip(8).take(8) =~= vstd::bytes::spec_u64_to_le_bytes(amount));
        },
        MyInstruction::Transfer { amount } => {
            assert(data.take(8) =~= TRANSFER_DISCRIMINATOR@);
            assert(data.skip(8).take(8) =~= vstd::bytes::spec_u64_to_le_bytes(amount));
        },
        MyInstruction::Arbitrary { arg } => {
            assert(data.take(8) =~= ARBITRARY_DISCRIMINATOR@);
            assert(data.skip(8)[0] == arg);
        },
    }
}

} // verus!
