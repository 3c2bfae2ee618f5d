//! The ways in which a command can be refused.

use vstd::prelude::*;

verus! {

/// Why a command was refused. A refused command changes nothing: every
/// check runs before the first call to another program is planned.
#[derive(Clone, Copy, Debug, PartialEq, Eq, Structural)]
pub enum FundError {
    /// The command bytes are cut short or carry an unknown opcode.
    DecodeError,
    /// An authority the command needs has not signed it.
    MissingSignature,
    /// An account supplied for a role is not at the address derived for it.
    AddressMismatch,
    /// A stored cross-reference (mint, vault, fund, token holding) disagrees
    /// with the account supplied, or a stored record cannot be read.
    StateMismatch,
    /// The proposal's deadline lies before the current time.
    DeadlinePassed,
    /// A vote record already exists for this proposal and voter.
    AlreadyVoted,
    /// The parallel sequences of a proposal differ in length, or are empty.
    LengthMismatch,
    /// Fewer accounts were supplied than the command consumes.
    InsufficientAccounts,
    /// The command is known but cannot be carried out.
    InvalidInstruction,
}

impl FundError {
    /// A short stable name for the error, for logs and messages.
    pub fn name(&self) -> (s: &'static str)
        ensures
            s@ == error_name(*self),
    {
        match self {
            FundError::DecodeError => "DecodeError",
            FundError::MissingSignature => "MissingSignature",
            FundError::AddressMismatch => "AddressMismatch",
            FundError::StateMismatch => "StateMismatch",
            FundError::DeadlinePassed => "DeadlinePassed",
            FundError::AlreadyVoted => "AlreadyVoted",
            FundError::LengthMismatch => "LengthMismatch",
            FundError::InsufficientAccounts => "InsufficientAccounts",
            FundError::InvalidInstruction => "InvalidInstruction",
        }
    }
}

/// The name of each error, as characters.
pub open spec fn error_name(e: FundError) -> Seq<char> {
    match e {
        FundError::DecodeError => "DecodeError"@,
        FundError::MissingSignature => "MissingSignature"@,
        FundError::AddressMismatch => "AddressMismatch"@,
        FundError::StateMismatch => "StateMismatch"@,
        FundError::DeadlinePassed => "DeadlinePassed"@,
        FundError::AlreadyVoted => "AlreadyVoted"@,
        FundError::LengthMismatch => "LengthMismatch"@,
        FundError::InsufficientAccounts => "InsufficientAccounts"@,
        FundError::InvalidInstruction => "InvalidInstruction"@,
    }
}

} // verus!
