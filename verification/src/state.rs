//! The two kinds of record the program keeps.

use crate::address::Address;
use vstd::prelude::*;

verus! {

/// One company's vesting program.
#[derive(Clone, Debug, PartialEq, Eq)]
pub struct VestingAccount {
    /// Who may enroll beneficiaries.
    pub owner: Address,
    /// The asset being vested.
    pub mint: Address,
    /// The account that holds the funded, not yet released balance.
    pub treasury_token_account: Address,
    /// The company's unique name; the seed of the program's own address.
    pub company_name: String,
    /// The salt found when the treasury's address was derived.
    pub treasury_bump: u8,
    /// The salt found when the program's address was derived.
    pub bump: u8,
}

/// One beneficiary's schedule under one vesting program.
#[derive(Clone, Copy, Debug, PartialEq, Eq)]
pub struct EmployeeAccount {
    /// Who may claim.
    pub beneficiary: Address,
    /// When vesting starts, in seconds of the Unix epoch.
    pub start_time: u64,
    /// When everything has vested.
    pub end_time: u64,
    /// The earliest time at which anything can be claimed.
    pub cliff_time: u64,
    /// The vesting program this schedule belongs to.
    pub vesting_account: Address,
    /// The units granted over the whole schedule.
    pub total_amount: u64,
    /// The units paid out so far.
    pub total_withdrawn: u64,
    /// The salt found when the schedule's address was derived.
    pub bump: u8,
}

/// A vesting program as plain values.
pub struct VestingAccountView {
    pub owner: Seq<u8>,
    pub mint: Seq<u8>,
    pub treasury_token_account: Seq<u8>,
    pub company_name: Seq<char>,
    pub treasury_bump: u8,
    pub bump: u8,
}

impl View for VestingAccount {
    type V = VestingAccountView;

    open spec fn view(&self) -> VestingAccountView {
        VestingAccountView {
            owner: self.owner@,
            mint: self.mint@,
            treasury_token_account: self.treasury_token_account@,
            company_name: self.company_name@,
            treasury_bump: self.treasury_bump,
            bump: self.bump,
        }
    }
}

} // verus!
