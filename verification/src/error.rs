//! The reasons an operation is refused.

use vstd::prelude::*;

verus! {

/// Why an operation was refused. Every refusal is final for the operation
/// that raised it and leaves all records as they were.
#[derive(Clone, Copy, Debug, PartialEq, Eq, Hash, Structural)]
pub enum ErrorCode {
    /// The cliff has not been reached.
    ClaimNotAvailableYet,
    /// Everything vested so far has already been withdrawn.
    NothingToClaim,
    /// The schedule has no length, or its times are out of order.
    InvalidVestingPeriod,
    /// The vesting product does not fit the width of an amount.
    CalculationOverflow,
    /// The caller does not hold the role the operation asks for.
    Unauthorized,
    /// A declared address is not the derived one, or two records are not linked.
    AddressMismatch,
    /// A record already lives at the derived address.
    DuplicateInitialization,
    /// The company's name is empty or longer than a name may be.
    InvalidCompanyName,
}

impl ErrorCode {
    /// The text shown to a user for each refusal.
    pub open spec fn message_text(&self) -> Seq<char> {
        match self {
            ErrorCode::ClaimNotAvailableYet => "Claiming is not available yet."@,
            ErrorCode::NothingToClaim => "There is nothing to claim."@,
            ErrorCode::InvalidVestingPeriod => "Invalid vesting period provided."@,
            ErrorCode::CalculationOverflow => "Calculation Overflow"@,
            ErrorCode::Unauthorized => "The caller is not authorized."@,
            ErrorCode::AddressMismatch => "An address does not match its derivation."@,
            ErrorCode::DuplicateInitialization => "The record already exists."@,
            ErrorCode::InvalidCompanyName => "The company name is empty or too long."@,
        }
    }

    /// The text for this refusal.
    pub fn message(&self) -> (text: &'static str)
        ensures
            text@ == self.message_text(),
    {
        match self {
            ErrorCode::ClaimNotAvailableYet => "Claiming is not available yet.",
            ErrorCode::NothingToClaim => "There is nothing to claim.",
            ErrorCode::InvalidVestingPeriod => "Invalid vesting period provided.",
            ErrorCode::CalculationOverflow => "Calculation Overflow",
            ErrorCode::Unauthorized => "The caller is not authorized.",
            ErrorCode::AddressMismatch => "An address does not match its derivation.",
            ErrorCode::DuplicateInitialization => "The record already exists.",
            ErrorCode::InvalidCompanyName => "The company name is empty or too long.",
        }
    }
}

} // verus!
