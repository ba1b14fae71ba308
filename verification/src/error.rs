//! Error types returned by the interface and by the programs built on it.

use vstd::prelude::*;

verus! {

/// Errors shared by every program processing interface instructions.
///
/// This models the error vocabulary of the host execution environment:
/// a program either fails with one of the fixed conditions below or with
/// a numbered error of its own (`Custom`).
#[derive(Clone, Copy, Debug, PartialEq, Eq, Structural)]
pub enum ProgramError {
    /// A program-specific error, identified by a number.
    Custom(u32),
    /// The instruction data could not be decoded.
    InvalidInstructionData,
    /// Account data was malformed or too short for what was read from it.
    InvalidAccountData,
    /// A supplied address does not match the address derived from the seeds.
    InvalidSeeds,
    /// A required signature is missing.
    MissingRequiredSignature,
    /// A length did not fit the field that stores it.
    AccountDataTooSmall,
    /// The account to be created already holds data.
    AccountAlreadyInUse,
    /// No entry with the requested discriminator exists in the buffer.
    TypeNotFound,
    /// An entry with the requested discriminator already exists in the buffer.
    TypeAlreadyExists,
    /// Fewer accounts were supplied than the instruction needs.
    NotEnoughAccountKeys,
}

/// Errors that may be returned by the transfer-hook interface.
#[derive(Clone, Copy, Debug, PartialEq, Eq, Structural)]
pub enum HookInterfaceError {
    /// Incorrect account provided
    IncorrectAccount,
    /// Mint has no mint authority
    MintHasNoMintAuthority,
    /// Incorrect mint authority has signed the instruction
    IncorrectMintAuthority,
}

impl HookInterfaceError {
    /// The number under which this error is reported to the host environment.
    pub open spec fn spec_code(self) -> u32 {
        match self {
            HookInterfaceError::IncorrectAccount => 0u32,
            HookInterfaceError::MintHasNoMintAuthority => 1u32,
            HookInterfaceError::IncorrectMintAuthority => 2u32,
        }
    }

    /// Returns the error number reported to the host environment.
    pub fn code(&self) -> (r: u32)
        ensures
            r == self.spec_code(),
    {
        match self {
            HookInterfaceError::IncorrectAccount => 0u32,
            HookInterfaceError::MintHasNoMintAuthority => 1u32,
            HookInterfaceError::IncorrectMintAuthority => 2u32,
        }
    }
}

/// The `ProgramError` that a `HookInterfaceError` is reported as.
pub open spec fn hook_error(e: HookInterfaceError) -> ProgramError {
    ProgramError::Custom(e.spec_code())
}

impl From<HookInterfaceError> for ProgramError {
    fn from(e: HookInterfaceError) -> (r: Self) {
        ProgramError::Custom(e.code())
    }
}

impl vstd::std_specs::convert::FromSpecImpl<HookInterfaceError> for ProgramError {
    open spec fn obeys_from_spec() -> bool {
        true
    }

    open spec fn from_spec(e: HookInterfaceError) -> Self {
        hook_error(e)
    }
}

} // verus!
