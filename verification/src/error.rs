//! Error conditions reported by the lockup program.

use vstd::prelude::*;

verus! {

/// Failure conditions specific to the lockup program's own rules.
///
/// Each variant is reported to the host under a numeric code, see
/// [`PaladinLockupError::code`].
#[derive(Clone, Copy, Debug, PartialEq, Eq, Structural)]
pub enum PaladinLockupError {
    /// The declared mint does not match the mint stored in the record.
    IncorrectMint,
    /// The declared escrow authority is not the derived escrow authority.
    IncorrectEscrowAuthorityAddress,
    /// The declared escrow token account is not the derived one.
    IncorrectEscrowTokenAccount,
    /// Withdrawal was attempted before the lockup's cooldown elapsed.
    LockupActive,
    /// Unlock was attempted on a record whose cooldown already started.
    LockupAlreadyUnlocked,
    /// The amount was too low to be entered into the pool.
    AmountTooLow,
}

impl PaladinLockupError {
    /// The numeric code under which this condition is surfaced.
    pub open spec fn spec_code(self) -> u32 {
        match self {
            PaladinLockupError::IncorrectMint => 0u32,
            PaladinLockupError::IncorrectEscrowAuthorityAddress => 1u32,
            PaladinLockupError::IncorrectEscrowTokenAccount => 2u32,
            PaladinLockupError::LockupActive => 3u32,
            PaladinLockupError::LockupAlreadyUnlocked => 4u32,
            PaladinLockupError::AmountTooLow => 5u32,
        }
    }

    /// Returns the numeric code of this condition.
    pub fn code(&self) -> (r: u32)
        ensures
            r == self.spec_code(),
    {
        match self {
            PaladinLockupError::IncorrectMint => 0u32,
            PaladinLockupError::IncorrectEscrowAuthorityAddress => 1u32,
            PaladinLockupError::IncorrectEscrowTokenAccount => 2u32,
            PaladinLockupError::LockupActive => 3u32,
            PaladinLockupError::LockupAlreadyUnlocked => 4u32,
            PaladinLockupError::AmountTooLow => 5u32,
        }
    }

    /// The characters of the human-readable description of this condition.
    pub open spec fn spec_message(self) -> Seq<char> {
        match self {
            PaladinLockupError::IncorrectMint => "Incorrect mint."@,
            PaladinLockupError::IncorrectEscrowAuthorityAddress => {
                "Incorrect escrow authority address."@
            },
            PaladinLockupError::IncorrectEscrowTokenAccount => "Incorrect escrow token account."@,
            PaladinLockupError::LockupActive => "Lockup is still active."@,
            PaladinLockupError::LockupAlreadyUnlocked => "Lockup already unlocked."@,
            PaladinLockupError::AmountTooLow => "Amount too low."@,
        }
    }

    /// A human-readable description of this condition.
    pub fn message(&self) -> (r: &'static str)
        ensures
            r@ == self.spec_message(),
    {
        match self {
            PaladinLockupError::IncorrectMint => "Incorrect mint.",
            PaladinLockupError::IncorrectEscrowAuthorityAddress => {
                "Incorrect escrow authority address."
            },
            PaladinLockupError::IncorrectEscrowTokenAccount => "Incorrect escrow token account.",
            PaladinLockupError::LockupActive => "Lockup is still active.",
            PaladinLockupError::LockupAlreadyUnlocked => "Lockup already unlocked.",
            PaladinLockupError::AmountTooLow => "Amount too low.",
        }
    }
}

/// The host-level failure conditions a handler can return: the subset of the
/// host ledger's program errors that this program raises, plus [`Custom`] for
/// the program's own conditions.
///
/// [`Custom`]: ProgramError::Custom
#[derive(Clone, Copy, Debug, PartialEq, Eq, Structural)]
pub enum ProgramError {
    /// A program-specific condition, carrying its numeric code.
    Custom(u32),
    /// The instruction bytes could not be decoded.
    InvalidInstructionData,
    /// An account's payload has the wrong shape.
    InvalidAccountData,
    /// An account is owned by the wrong program.
    InvalidAccountOwner,
    /// The account to initialize is already initialized.
    AccountAlreadyInitialized,
    /// The account to operate on is not initialized.
    UninitializedAccount,
    /// The instruction declared fewer accounts than the handler needs.
    NotEnoughAccountKeys,
    /// A required signature is missing.
    MissingRequiredSignature,
    /// The signer is not the authority the operation demands.
    IncorrectAuthority,
    /// An address does not match its required derivation.
    InvalidSeeds,
    /// A checked arithmetic operation overflowed.
    ArithmeticOverflow,
}

impl From<PaladinLockupError> for ProgramError {
    fn from(e: PaladinLockupError) -> (r: ProgramError) {
        ProgramError::Custom(e.code())
    }
}

impl vstd::std_specs::convert::FromSpecImpl<PaladinLockupError> for ProgramError {
    open spec fn obeys_from_spec() -> bool {
        true
    }

    open spec fn from_spec(e: PaladinLockupError) -> ProgramError {
        ProgramError::Custom(e.spec_code())
    }
}

} // verus!
