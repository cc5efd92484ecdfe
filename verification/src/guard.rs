//! What is checked before an operation may touch a record: that every
//! address named is the derived one, that the caller holds the role the
//! operation asks for, and that the records named belong together.

use crate::address::Address;
use crate::derivation::{
    address_bytes, employee_account_seeds, employee_seeds, found_bytes, found_employee_account,
    found_treasury, found_vesting_account, rederive, rederived, salted, seeds_fit,
    treasury_account_seeds, treasury_seeds, vesting_account_seeds, vesting_seeds,
};
use crate::error::ErrorCode;
use crate::state::{EmployeeAccount, VestingAccount, VestingAccountView};
use vstd::prelude::*;
use vstd::utf8::encode_utf8;

verus! {

/// The request to register a company.
#[derive(Clone, Copy, Debug, PartialEq, Eq)]
pub struct CreateVestingAccount {
    /// The caller, who becomes the program's owner.
    pub signer: Address,
    /// Where the vesting program is to live.
    pub vesting_account: Address,
    /// The asset to vest.
    pub mint: Address,
    /// Where the program's treasury is to live.
    pub treasury_token_account: Address,
}

/// The request to enroll a beneficiary.
#[derive(Clone, Copy, Debug, PartialEq, Eq)]
pub struct CreateEmployeeAccount {
    /// The caller, who must own the vesting program.
    pub owner: Address,
    /// Who is to receive the grant.
    pub beneficiary: Address,
    /// The vesting program to enroll under.
    pub vesting_account: Address,
    /// Where the schedule is to live.
    pub employee_account: Address,
}

/// The request to claim what has vested.
#[derive(Clone, Copy, Debug, PartialEq, Eq)]
pub struct ClaimTokens {
    /// The caller, who must be the schedule's beneficiary.
    pub beneficiary: Address,
    /// The schedule claimed on.
    pub employee_account: Address,
    /// The vesting program the schedule belongs to.
    pub vesting_account: Address,
    /// The asset vested.
    pub mint: Address,
    /// The treasury that pays.
    pub treasury_token_account: Address,
    /// The beneficiary's account that is paid.
    pub employee_token_account: Address,
}

/// The longest company name, in bytes.
pub const MAX_COMPANY_NAME_LEN: usize = 50;

/// A company's name is not empty and no longer than a name may be.
pub open spec fn company_name_valid(company_name: Seq<char>) -> bool {
    1 <= encode_utf8(company_name).len() <= MAX_COMPANY_NAME_LEN
}

/// Checks the length of a company's name.
pub fn check_company_name(company_name: &str) -> (r: Result<(), ErrorCode>)
    ensures
        company_name_valid(company_name@) ==> r == Ok::<(), ErrorCode>(()),
        !company_name_valid(company_name@) ==> r == Err::<(), ErrorCode>(
            ErrorCode::InvalidCompanyName,
        ),
{
    let length = company_name.as_bytes().len();
    if length == 0 || length > MAX_COMPANY_NAME_LEN {
        Err(ErrorCode::InvalidCompanyName)
    } else {
        Ok(())
    }
}

/// The seeds of a name that may be used leave room for the salt and hold no
/// piece longer than a seed, so that no derivation from them is refused for
/// the seeds' sizes.
pub proof fn lemma_valid_name_fits_seeds(company_name: Seq<char>, bump: u8)
    requires
        company_name_valid(company_name),
    ensures
        seeds_fit(salted(vesting_seeds(company_name), bump)),
        seeds_fit(salted(treasury_seeds(company_name), bump)),
{
}

/// The two salts of a registration whose declared addresses are the ones
/// found, or the refusal.
pub open spec fn registration_guard(
    ctx: CreateVestingAccount,
    program: Option<(Seq<u8>, u8)>,
    treasury: Option<(Seq<u8>, u8)>,
) -> Result<(u8, u8), ErrorCode> {
    if program is Some && treasury is Some && program->Some_0.0 == ctx.vesting_account@
        && treasury->Some_0.0 == ctx.treasury_token_account@ {
        Ok((program->Some_0.1, treasury->Some_0.1))
    } else {
        Err(ErrorCode::AddressMismatch)
    }
}

/// The salt of an enrollment whose declared address is the one found and
/// whose caller owns the program, or the refusal that comes first.
pub open spec fn enrollment_guard(
    ctx: CreateEmployeeAccount,
    owner: Seq<u8>,
    schedule: Option<(Seq<u8>, u8)>,
) -> Result<u8, ErrorCode> {
    if !(schedule is Some && schedule->Some_0.0 == ctx.employee_account@) {
        Err(ErrorCode::AddressMismatch)
    } else if ctx.owner@ != owner {
        Err(ErrorCode::Unauthorized)
    } else {
        Ok(schedule->Some_0.1)
    }
}

/// Whether a claim may go on, or the refusal that comes first: an address
/// that is not the derived one, a caller who is not the beneficiary, records
/// that do not belong together.
pub open spec fn claim_guard(
    ctx: ClaimTokens,
    program: VestingAccountView,
    schedule: EmployeeAccount,
    program_address: Option<Seq<u8>>,
    treasury_address: Option<Seq<u8>>,
    schedule_address: Option<Seq<u8>>,
) -> Result<(), ErrorCode> {
    if program_address != Some(ctx.vesting_account@) || treasury_address != Some(
        ctx.treasury_token_account@,
    ) || schedule_address != Some(ctx.employee_account@) {
        Err(ErrorCode::AddressMismatch)
    } else if schedule.beneficiary@ != ctx.beneficiary@ {
        Err(ErrorCode::Unauthorized)
    } else if schedule.vesting_account@ != ctx.vesting_account@ || program.treasury_token_account
        != ctx.treasury_token_account@ || program.mint != ctx.mint@ {
        Err(ErrorCode::AddressMismatch)
    } else {
        Ok(())
    }
}

/// Whether `derived` holds exactly the declared address.
pub fn is_derived(declared: &Address, derived: &Option<Address>) -> (r: bool)
    ensures
        r == (address_bytes(*derived) == Some(declared@)),
{
    match derived {
        Some(address) => *address == *declared,
        None => false,
    }
}

/// Checks a registration against the addresses found for the company's name.
pub fn check_registration(
    ctx: &CreateVestingAccount,
    program: Option<(Address, u8)>,
    treasury: Option<(Address, u8)>,
) -> (r: Result<(u8, u8), ErrorCode>)
    ensures
        r == registration_guard(*ctx, found_bytes(program), found_bytes(treasury)),
{
    match (program, treasury) {
        (Some((program_address, bump)), Some((treasury_address, treasury_bump))) => {
            if program_address == ctx.vesting_account && treasury_address
                == ctx.treasury_token_account {
                Ok((bump, treasury_bump))
            } else {
                Err(ErrorCode::AddressMismatch)
            }
        },
        _ => Err(ErrorCode::AddressMismatch),
    }
}

/// Checks an enrollment against the address found for the schedule and the
/// owner of the vesting program.
pub fn check_enrollment(
    ctx: &CreateEmployeeAccount,
    program: &VestingAccount,
    schedule: Option<(Address, u8)>,
) -> (r: Result<u8, ErrorCode>)
    ensures
        r == enrollment_guard(*ctx, program.owner@, found_bytes(schedule)),
{
    match schedule {
        Some((schedule_address, bump)) => {
            if !(schedule_address == ctx.employee_account) {
                Err(ErrorCode::AddressMismatch)
            } else if !(ctx.owner == program.owner) {
                Err(ErrorCode::Unauthorized)
            } else {
                Ok(bump)
            }
        },
        None => Err(ErrorCode::AddressMismatch),
    }
}

/// Checks a claim against the two records and the addresses computed again
/// from their seeds and kept salts.
pub fn check_claim(
    ctx: &ClaimTokens,
    program: &VestingAccount,
    schedule: &EmployeeAccount,
    program_address: Option<Address>,
    treasury_address: Option<Address>,
    schedule_address: Option<Address>,
) -> (r: Result<(), ErrorCode>)
    ensures
        r == claim_guard(
            *ctx,
            program@,
            *schedule,
            address_bytes(program_address),
            address_bytes(treasury_address),
            address_bytes(schedule_address),
        ),
{
    if !is_derived(&ctx.vesting_account, &program_address) || !is_derived(
        &ctx.treasury_token_account,
        &treasury_address,
    ) || !is_derived(&ctx.employee_account, &schedule_address) {
        Err(ErrorCode::AddressMismatch)
    } else if !(schedule.beneficiary == ctx.beneficiary) {
        Err(ErrorCode::Unauthorized)
    } else if !(schedule.vesting_account == ctx.vesting_account) || !(
    program.treasury_token_account == ctx.treasury_token_account) || !(program.mint == ctx.mint) {
        Err(ErrorCode::AddressMismatch)
    } else {
        Ok(())
    }
}

/// What the guard of a registration says of a company's name: a name that
/// may not be used is refused first, then the addresses are checked.
pub open spec fn registration_check(ctx: CreateVestingAccount, company_name: Seq<char>) -> Result<
    (u8, u8),
    ErrorCode,
> {
    if !company_name_valid(company_name) {
        Err(ErrorCode::InvalidCompanyName)
    } else {
        registration_guard(ctx, found_vesting_account(company_name), found_treasury(company_name))
    }
}

/// What the guard of an enrollment says under a program owned by `owner`.
pub open spec fn enrollment_check(ctx: CreateEmployeeAccount, owner: Seq<u8>) -> Result<
    u8,
    ErrorCode,
> {
    enrollment_guard(ctx, owner, found_employee_account(ctx.beneficiary@, ctx.vesting_account@))
}

/// What the guard of a claim says of the two records and the company's name.
pub open spec fn claim_check(
    ctx: ClaimTokens,
    company_name: Seq<char>,
    program: VestingAccountView,
    schedule: EmployeeAccount,
) -> Result<(), ErrorCode> {
    claim_guard(
        ctx,
        program,
        schedule,
        rederived(vesting_seeds(company_name), program.bump),
        rederived(treasury_seeds(company_name), program.treasury_bump),
        rederived(employee_seeds(schedule.beneficiary@, schedule.vesting_account@), schedule.bump),
    )
}

/// Checks the company's name, derives the program's and the treasury's
/// address from it and checks the registration against them. A registration
/// that passes has its salts handed out; with them both addresses can be
/// computed again.
pub fn authorize_registration(ctx: &CreateVestingAccount, company_name: &str) -> (r: Result<
    (u8, u8),
    ErrorCode,
>)
    ensures
        r == registration_check(*ctx, company_name@),
        r matches Ok((bump, treasury_bump)) ==> rederived(vesting_seeds(company_name@), bump)
            == Some(ctx.vesting_account@) && rederived(
            treasury_seeds(company_name@),
            treasury_bump,
        ) == Some(ctx.treasury_token_account@),
{
    match check_company_name(company_name) {
        Ok(_) => {},
        Err(e) => {
            return Err(e);
        },
    }
    let program = crate::derivation::derive(&vesting_account_seeds(company_name));
    let treasury = crate::derivation::derive(&treasury_account_seeds(company_name));
    check_registration(ctx, program, treasury)
}

/// Derives the schedule's address from the beneficiary and the vesting
/// program and checks the enrollment against it.
pub fn authorize_enrollment(ctx: &CreateEmployeeAccount, program: &VestingAccount) -> (r: Result<
    u8,
    ErrorCode,
>)
    ensures
        r == enrollment_check(*ctx, program.owner@),
        r matches Ok(bump) ==> rederived(
            employee_seeds(ctx.beneficiary@, ctx.vesting_account@),
            bump,
        ) == Some(ctx.employee_account@),
{
    let schedule = crate::derivation::derive(&employee_account_seeds(&ctx.beneficiary, &ctx.vesting_account));
    check_enrollment(ctx, program, schedule)
}

/// Computes the three addresses of a claim again, from their seeds and the
/// salts kept in the records, and checks the claim against them.
pub fn authorize_claim(
    ctx: &ClaimTokens,
    company_name: &str,
    program: &VestingAccount,
    schedule: &EmployeeAccount,
) -> (r: Result<(), ErrorCode>)
    ensures
        r == claim_check(*ctx, company_name@, program@, *schedule),
{
    let program_address = rederive(&vesting_account_seeds(company_name), program.bump);
    let treasury_address = rederive(&treasury_account_seeds(company_name), program.treasury_bump);
    let schedule_address = rederive(
        &employee_account_seeds(&schedule.beneficiary, &schedule.vesting_account),
        schedule.bump,
    );
    check_claim(ctx, program, schedule, program_address, treasury_address, schedule_address)
}

} // verus!
