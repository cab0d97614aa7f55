//! The closed set of failures an operation can end with.

use vstd::prelude::*;

verus! {

/// Failures of the staking rules themselves.
#[derive(Clone, Copy, Debug, PartialEq, Eq, Structural)]
pub enum StakingError {
    Unauthorized,
    NotRentExempt,
    InvalidOwner,
    InvalidMint,
    DoubleStake,
    ZeroAmount,
    LockActive,
    Overflow,
    VaultInsufficient,
    ATAMissing,
    TimeWentBackwards,
}

impl StakingError {
    /// The number under which the host reports this failure: the position of
    /// the kind in the declaration, counted from zero.
    pub open spec fn spec_code(self) -> u32 {
        match self {
            StakingError::Unauthorized => 0,
            StakingError::NotRentExempt => 1,
            StakingError::InvalidOwner => 2,
            StakingError::InvalidMint => 3,
            StakingError::DoubleStake => 4,
            StakingError::ZeroAmount => 5,
            StakingError::LockActive => 6,
            StakingError::Overflow => 7,
            StakingError::VaultInsufficient => 8,
            StakingError::ATAMissing => 9,
            StakingError::TimeWentBackwards => 10,
        }
    }

    /// The text shown for this failure: the name of the kind.
    pub open spec fn spec_message(self) -> Seq<char> {
        match self {
            StakingError::Unauthorized => "Unauthorized"@,
            StakingError::NotRentExempt => "NotRentExempt"@,
            StakingError::InvalidOwner => "InvalidOwner"@,
            StakingError::InvalidMint => "InvalidMint"@,
            StakingError::DoubleStake => "DoubleStake"@,
            StakingError::ZeroAmount => "ZeroAmount"@,
            StakingError::LockActive => "LockActive"@,
            StakingError::Overflow => "Overflow"@,
            StakingError::VaultInsufficient => "VaultInsufficient"@,
            StakingError::ATAMissing => "ATAMissing"@,
            StakingError::TimeWentBackwards => "TimeWentBackwards"@,
        }
    }

    pub fn code(&self) -> (code: u32)
        ensures
            code == self.spec_code(),
    {
        match self {
            StakingError::Unauthorized => 0,
            StakingError::NotRentExempt => 1,
            StakingError::InvalidOwner => 2,
            StakingError::InvalidMint => 3,
            StakingError::DoubleStake => 4,
            StakingError::ZeroAmount => 5,
            StakingError::LockActive => 6,
            StakingError::Overflow => 7,
            StakingError::VaultInsufficient => 8,
            StakingError::ATAMissing => 9,
            StakingError::TimeWentBackwards => 10,
        }
    }

    pub fn message(&self) -> (text: &'static str)
        ensures
            text@ == self.spec_message(),
    {
        match self {
            StakingError::Unauthorized => "Unauthorized",
            StakingError::NotRentExempt => "NotRentExempt",
            StakingError::InvalidOwner => "InvalidOwner",
            StakingError::InvalidMint => "InvalidMint",
            StakingError::DoubleStake => "DoubleStake",
            StakingError::ZeroAmount => "ZeroAmount",
            StakingError::LockActive => "LockActive",
            StakingError::Overflow => "Overflow",
            StakingError::VaultInsufficient => "VaultInsufficient",
            StakingError::ATAMissing => "ATAMissing",
            StakingError::TimeWentBackwards => "TimeWentBackwards",
        }
    }
}

/// Distinct kinds are reported under distinct numbers.
pub proof fn code_identifies_kind(a: StakingError, b: StakingError)
    requires
        a.spec_code() == b.spec_code(),
    ensures
        a == b,
{
}

/// How an operation fails: by a staking rule, or by one of the generic
/// failures of decoding and of matching accounts to their roles.
#[derive(Clone, Copy, Debug, PartialEq, Eq, Structural)]
pub enum ProgramFault {
    /// A staking rule was broken.
    Staking(StakingError),
    /// An account does not stand at the address derived for its role (or no
    /// address can be derived for it), the rent record handed in with the
    /// accounts cannot be read, or the operation is run at a stage that is
    /// not its own.
    InvalidArgument,
    /// The instruction payload is not an encoded operation.
    InvalidInstructionData,
    /// An account's data is not a record of the expected kind.
    InvalidAccountData,
    /// An account's storage is too short for the record to be written.
    AccountDataTooSmall,
    /// The pool account holds no data yet.
    UninitializedAccount,
    /// Fewer accounts were supplied than the operation has roles.
    NotEnoughAccountKeys,
    /// The token program named by the caller is not the token custodian.
    IncorrectProgramId,
    /// The clock could not be read.
    UnsupportedSysvar,
}

} // verus!
