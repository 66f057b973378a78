//! The failures that the ledger reports, and their stable numeric codes.

use solana_program::program_error::ProgramError;
use vstd::prelude::*;

verus! {

/// A failure of one of the ledger's own checks.
#[derive(Clone, Copy, Debug, PartialEq, Eq, Structural)]
pub enum TimestampError {
    /// The payload does not decode as any known request.
    InvalidInstructionData,
    /// The signer is not the ledger's admin.
    NotAuthorized,
    /// Reserved: no operation reports it at present.
    RecordNotFound,
    /// A slot that must be owned by this program is not.
    IncorrectProgramId,
    /// A slot that must carry verified-signer status does not.
    MissingRequiredSignature,
    /// A decoded record fails a semantic check.
    InvalidAccountData,
    /// A slot is shorter than the record it must hold.
    AccountDataTooSmall,
}

impl TimestampError {
    /// The code under which the host sees this failure.
    pub open spec fn spec_code(self) -> u32 {
        match self {
            TimestampError::InvalidInstructionData => 0,
            TimestampError::NotAuthorized => 1,
            TimestampError::RecordNotFound => 2,
            TimestampError::IncorrectProgramId => 3,
            TimestampError::MissingRequiredSignature => 4,
            TimestampError::InvalidAccountData => 5,
            TimestampError::AccountDataTooSmall => 6,
        }
    }

    /// The failure that a code stands for, if any.
    pub open spec fn spec_from_code(code: u32) -> Option<TimestampError> {
        if code == 0 {
            Some(TimestampError::InvalidInstructionData)
        } else if code == 1 {
            Some(TimestampError::NotAuthorized)
        } else if code == 2 {
            Some(TimestampError::RecordNotFound)
        } else if code == 3 {
            Some(TimestampError::IncorrectProgramId)
        } else if code == 4 {
            Some(TimestampError::MissingRequiredSignature)
        } else if code == 5 {
            Some(TimestampError::InvalidAccountData)
        } else if code == 6 {
            Some(TimestampError::AccountDataTooSmall)
        } else {
            None
        }
    }

    /// The code under which the host sees this failure.
    pub fn code(&self) -> (c: u32)
        ensures
            c == self.spec_code(),
            c <= 6,
            TimestampError::spec_from_code(c) == Some(*self),
    {
        match self {
            TimestampError::InvalidInstructionData => 0,
            TimestampError::NotAuthorized => 1,
            TimestampError::RecordNotFound => 2,
            TimestampError::IncorrectProgramId => 3,
            TimestampError::MissingRequiredSignature => 4,
            TimestampError::InvalidAccountData => 5,
            TimestampError::AccountDataTooSmall => 6,
        }
    }

    /// The failure that a code stands for: `Some` exactly for the codes 0 to 6.
    pub fn from_code(code: u32) -> (r: Option<TimestampError>)
        ensures
            r == TimestampError::spec_from_code(code),
            r.is_some() <==> code <= 6,
            r matches Some(e) ==> e.spec_code() == code,
    {
        if code == 0 {
            Some(TimestampError::InvalidInstructionData)
        } else if code == 1 {
            Some(TimestampError::NotAuthorized)
        } else if code == 2 {
            Some(TimestampError::RecordNotFound)
        } else if code == 3 {
            Some(TimestampError::IncorrectProgramId)
        } else if code == 4 {
            Some(TimestampError::MissingRequiredSignature)
        } else if code == 5 {
            Some(TimestampError::InvalidAccountData)
        } else if code == 6 {
            Some(TimestampError::AccountDataTooSmall)
        } else {
            None
        }
    }

    /// The diagnostic text of this failure. It is informational only.
    pub open spec fn spec_message(self) -> Seq<char> {
        match self {
            TimestampError::InvalidInstructionData => "Invalid instruction data"@,
            TimestampError::NotAuthorized => "Not authorized"@,
            TimestampError::RecordNotFound => "Record not found"@,
            TimestampError::IncorrectProgramId => "Incorrect program ID"@,
            TimestampError::MissingRequiredSignature => "Missing required signature"@,
            TimestampError::InvalidAccountData => "Invalid account data"@,
            TimestampError::AccountDataTooSmall => "Account data too small"@,
        }
    }

    /// The diagnostic text of this failure. It is informational only.
    pub fn message(&self) -> (s: &'static str)
        ensures
            s@ == self.spec_message(),
    {
        match self {
            TimestampError::InvalidInstructionData => "Invalid instruction data",
            TimestampError::NotAuthorized => "Not authorized",
            TimestampError::RecordNotFound => "Record not found",
            TimestampError::IncorrectProgramId => "Incorrect program ID",
            TimestampError::MissingRequiredSignature => "Missing required signature",
            TimestampError::InvalidAccountData => "Invalid account data",
            TimestampError::AccountDataTooSmall => "Account data too small",
        }
    }
}

/// Why a request was not carried out.
#[derive(Debug)]
pub enum ProcessError {
    /// One of the ledger's own checks failed.
    Ledger(TimestampError),
    /// The slot list is shorter than the operation needs.
    NotEnoughAccountKeys,
    /// The host did not yield its clock; the host's own error is carried along.
    Clock(ProgramError),
}

} // verus!
