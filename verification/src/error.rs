use vstd::prelude::*;

verus! {

/// The errors the program itself raises.
#[derive(Clone, Copy, Debug, PartialEq, Eq, Structural)]
pub enum ErrorCode {
    CustomError,
    IntegerOverflow,
    StakeAmountExceedsCap,
    InvalidUnstakeAmount,
}

/// First number of the range in which the program's own error codes lie.
pub const ERROR_CODE_OFFSET: u32 = 6000;

impl ErrorCode {
    /// Position of the variant in the declaration, counted from zero.
    pub open spec fn index_spec(self) -> u32 {
        match self {
            ErrorCode::CustomError => 0,
            ErrorCode::IntegerOverflow => 1,
            ErrorCode::StakeAmountExceedsCap => 2,
            ErrorCode::InvalidUnstakeAmount => 3,
        }
    }

    /// The number the program reports for this error: the offset plus the
    /// variant's position.
    pub fn code(&self) -> (c: u32)
        ensures
            c == ERROR_CODE_OFFSET + self.index_spec(),
    {
        match self {
            ErrorCode::CustomError => ERROR_CODE_OFFSET,
            ErrorCode::IntegerOverflow => ERROR_CODE_OFFSET + 1,
            ErrorCode::StakeAmountExceedsCap => ERROR_CODE_OFFSET + 2,
            ErrorCode::InvalidUnstakeAmount => ERROR_CODE_OFFSET + 3,
        }
    }

    /// The error's message.
    pub fn message(&self) -> (m: &'static str)
        ensures
            m@ == match self {
                ErrorCode::CustomError => "Custom error message"@,
                ErrorCode::IntegerOverflow => "Integer overflow"@,
                ErrorCode::StakeAmountExceedsCap => "Stake amount exceeds cap"@,
                ErrorCode::InvalidUnstakeAmount => "Invalid unstake amount"@,
            },
    {
        match self {
            ErrorCode::CustomError => "Custom error message",
            ErrorCode::IntegerOverflow => "Integer overflow",
            ErrorCode::StakeAmountExceedsCap => "Stake amount exceeds cap",
            ErrorCode::InvalidUnstakeAmount => "Invalid unstake amount",
        }
    }
}

/// An account relationship that an instruction demands and that the accounts
/// handed to it do not meet.
#[derive(Clone, Copy, Debug, PartialEq, Eq, Structural)]
pub enum ConstraintViolation {
    /// A field of a program account does not hold the address of the account
    /// passed beside it.
    HasOne,
    /// A stated equality between accounts does not hold.
    Raw,
    /// A token account holds tokens of another mint.
    TokenMint,
    /// A token account belongs to another authority.
    TokenOwner,
    /// A token account is owned by another token program.
    TokenTokenProgram,
    /// A mint is owned by another token program.
    MintTokenProgram,
}

/// Why an instruction is refused.
#[derive(Clone, Copy, Debug, PartialEq, Eq, Structural)]
pub enum DelegatorError {
    /// The accounts break a constraint.
    Constraint(ConstraintViolation),
    /// The handler refuses the request.
    Program(ErrorCode),
    /// The runtime does not provide the clock.
    ClockUnavailable,
    /// The reward arithmetic of an unstake leaves `u64`: the clock runs behind
    /// the stake's last reward update, or the reward or the owed total
    /// overflows. The transaction is aborted.
    RewardOutOfRange,
}

} // verus!
