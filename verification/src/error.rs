//! Failure reasons of the program and their numeric codes on the ledger.

use vstd::prelude::*;

verus! {

/// Why an invocation was aborted. Every failure is terminal for the invocation.
#[derive(Clone, Copy, Debug, PartialEq, Eq, Structural)]
pub enum ProgramError {
    /// A malformed argument, such as a reference that is not base58.
    InvalidArgument,
    /// An account holds data that does not decode as the expected record.
    InvalidAccountData,
    /// A program identifier names a program that cannot serve the request.
    IncorrectProgramId,
    /// A required authority did not sign.
    MissingSignature,
    /// The receipt address has already been used.
    AlreadyInitialized,
    /// A holding account exists but the token service never initialized it.
    UninitializedAccount,
    /// The account list ended before every required handle was found.
    MissingAccount,
    /// The instruction payload is malformed.
    DecodeFailure,
    /// A holding account's recorded owner or its owning program is not the expected one.
    IllegalOwner,
    /// Any other failure, by the code under which the ledger reports it.
    Host(u64),
}

/// The outcome of an invocation or of one step of it.
pub type ProgramResult = Result<(), ProgramError>;

/// The ledger's code of its built-in failure number 2.
pub const INVALID_ARGUMENT: u64 = 0x2_0000_0000;

/// The ledger's code of its built-in failure number 4.
pub const INVALID_ACCOUNT_DATA: u64 = 0x4_0000_0000;

/// The ledger's code of its built-in failure number 7.
pub const INCORRECT_PROGRAM_ID: u64 = 0x7_0000_0000;

/// The ledger's code of its built-in failure number 8.
pub const MISSING_REQUIRED_SIGNATURES: u64 = 0x8_0000_0000;

/// The ledger's code of its built-in failure number 9.
pub const ACCOUNT_ALREADY_INITIALIZED: u64 = 0x9_0000_0000;

/// The ledger's code of its built-in failure number 10.
pub const UNINITIALIZED_ACCOUNT: u64 = 0xa_0000_0000;

/// The ledger's code of its built-in failure number 11.
pub const NOT_ENOUGH_ACCOUNT_KEYS: u64 = 0xb_0000_0000;

/// The ledger's code of its built-in failure number 15.
pub const BORSH_IO_ERROR: u64 = 0xf_0000_0000;

/// The ledger's code of its built-in failure number 18.
pub const ILLEGAL_OWNER: u64 = 0x12_0000_0000;

/// Whether the ledger's code `c` belongs to one of the named failures.
pub open spec fn is_named_code(c: u64) -> bool {
    c == INVALID_ARGUMENT || c == INVALID_ACCOUNT_DATA || c == INCORRECT_PROGRAM_ID || c == MISSING_REQUIRED_SIGNATURES
        || c == ACCOUNT_ALREADY_INITIALIZED || c == UNINITIALIZED_ACCOUNT || c == NOT_ENOUGH_ACCOUNT_KEYS || c
        == BORSH_IO_ERROR || c == ILLEGAL_OWNER
}

impl ProgramError {
    /// A `Host` failure never carries the code of a named failure.
    pub open spec fn wf(self) -> bool {
        self matches ProgramError::Host(c) ==> !is_named_code(c)
    }

    /// The code under which the ledger reports this failure.
    pub open spec fn spec_code(self) -> u64 {
        match self {
            ProgramError::InvalidArgument => INVALID_ARGUMENT,
            ProgramError::InvalidAccountData => INVALID_ACCOUNT_DATA,
            ProgramError::IncorrectProgramId => INCORRECT_PROGRAM_ID,
            ProgramError::MissingSignature => MISSING_REQUIRED_SIGNATURES,
            ProgramError::AlreadyInitialized => ACCOUNT_ALREADY_INITIALIZED,
            ProgramError::UninitializedAccount => UNINITIALIZED_ACCOUNT,
            ProgramError::MissingAccount => NOT_ENOUGH_ACCOUNT_KEYS,
            ProgramError::DecodeFailure => BORSH_IO_ERROR,
            ProgramError::IllegalOwner => ILLEGAL_OWNER,
            ProgramError::Host(c) => c,
        }
    }

    /// The failure that the ledger reports under the code `c`.
    pub open spec fn spec_from_code(c: u64) -> ProgramError {
        if c == INVALID_ARGUMENT {
            ProgramError::InvalidArgument
        } else if c == INVALID_ACCOUNT_DATA {
            ProgramError::InvalidAccountData
        } else if c == INCORRECT_PROGRAM_ID {
            ProgramError::IncorrectProgramId
        } else if c == MISSING_REQUIRED_SIGNATURES {
            ProgramError::MissingSignature
        } else if c == ACCOUNT_ALREADY_INITIALIZED {
            ProgramError::AlreadyInitialized
        } else if c == UNINITIALIZED_ACCOUNT {
            ProgramError::UninitializedAccount
        } else if c == NOT_ENOUGH_ACCOUNT_KEYS {
            ProgramError::MissingAccount
        } else if c == BORSH_IO_ERROR {
            ProgramError::DecodeFailure
        } else if c == ILLEGAL_OWNER {
            ProgramError::IllegalOwner
        } else {
            ProgramError::Host(c)
        }
    }

    /// The code under which the ledger reports this failure.
    pub fn code(&self) -> (c: u64)
        ensures
            c == self.spec_code(),
    {
        match self {
            ProgramError::InvalidArgument => INVALID_ARGUMENT,
            ProgramError::InvalidAccountData => INVALID_ACCOUNT_DATA,
            ProgramError::IncorrectProgramId => INCORRECT_PROGRAM_ID,
            ProgramError::MissingSignature => MISSING_REQUIRED_SIGNATURES,
            ProgramError::AlreadyInitialized => ACCOUNT_ALREADY_INITIALIZED,
            ProgramError::UninitializedAccount => UNINITIALIZED_ACCOUNT,
            ProgramError::MissingAccount => NOT_ENOUGH_ACCOUNT_KEYS,
            ProgramError::DecodeFailure => BORSH_IO_ERROR,
            ProgramError::IllegalOwner => ILLEGAL_OWNER,
            ProgramError::Host(c) => *c,
        }
    }

    /// The failure that the ledger reports under the code `c`.
    pub fn from_code(c: u64) -> (e: ProgramError)
        ensures
            e == ProgramError::spec_from_code(c),
            e.wf(),
            e.spec_code() == c,
    {
        if c == INVALID_ARGUMENT {
            ProgramError::InvalidArgument
        } else if c == INVALID_ACCOUNT_DATA {
            ProgramError::InvalidAccountData
        } else if c == INCORRECT_PROGRAM_ID {
            ProgramError::IncorrectProgramId
        } else if c == MISSING_REQUIRED_SIGNATURES {
            ProgramError::MissingSignature
        } else if c == ACCOUNT_ALREADY_INITIALIZED {
            ProgramError::AlreadyInitialized
        } else if c == UNINITIALIZED_ACCOUNT {
            ProgramError::UninitializedAccount
        } else if c == NOT_ENOUGH_ACCOUNT_KEYS {
            ProgramError::MissingAccount
        } else if c == BORSH_IO_ERROR {
            ProgramError::DecodeFailure
        } else if c == ILLEGAL_OWNER {
            ProgramError::IllegalOwner
        } else {
            ProgramError::Host(c)
        }
    }

    /// A short name of the failure, for logs.
    pub fn name(&self) -> (s: &'static str)
        ensures
            s@ == Self::spec_name(*self),
    {
        match self {
            ProgramError::InvalidArgument => "InvalidArgument",
            ProgramError::InvalidAccountData => "InvalidAccountData",
            ProgramError::IncorrectProgramId => "IncorrectProgramId",
            ProgramError::MissingSignature => "MissingSignature",
            ProgramError::AlreadyInitialized => "AlreadyInitialized",
            ProgramError::UninitializedAccount => "UninitializedAccount",
            ProgramError::MissingAccount => "MissingAccount",
            ProgramError::DecodeFailure => "DecodeFailure",
            ProgramError::IllegalOwner => "IllegalOwner",
            ProgramError::Host(_) => "Host",
        }
    }

    /// The name that `name` returns.
    pub open spec fn spec_name(e: ProgramError) -> Seq<char> {
        match e {
            ProgramError::InvalidArgument => "InvalidArgument"@,
            ProgramError::InvalidAccountData => "InvalidAccountData"@,
            ProgramError::IncorrectProgramId => "IncorrectProgramId"@,
            ProgramError::MissingSignature => "MissingSignature"@,
            ProgramError::AlreadyInitialized => "AlreadyInitialized"@,
            ProgramError::UninitializedAccount => "UninitializedAccount"@,
            ProgramError::MissingAccount => "MissingAccount"@,
            ProgramError::DecodeFailure => "DecodeFailure"@,
            ProgramError::IllegalOwner => "IllegalOwner"@,
            ProgramError::Host(_) => "Host"@,
        }
    }
}

/// A failure and its code determine each other: reading back the code of a well-formed
/// failure gives that failure again.
pub proof fn lemma_code_round_trip(e: ProgramError)
    requires
        e.wf(),
    ensures
        ProgramError::spec_from_code(e.spec_code()) == e,
{
}

} // verus!
