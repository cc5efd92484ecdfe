//! The three operations: registering a company, enrolling a beneficiary and
//! claiming what has vested, with the settling of a claim once the ledger
//! has answered.

use crate::address::Address;
use crate::error::ErrorCode;
use crate::derivation::{employee_seeds, found_employee_account, rederived};
use crate::guard::{
    authorize_claim, authorize_enrollment, authorize_registration, claim_check, enrollment_check,
    registration_check, ClaimTokens, CreateEmployeeAccount, CreateVestingAccount,
};
use crate::registry::{program_consistent, Registry};
use crate::state::{EmployeeAccount, VestingAccount, VestingAccountView};
use vstd::prelude::*;

verus! {

/// The payment that a claim asks the token ledger to make.
#[derive(Clone, Copy, Debug, PartialEq, Eq)]
pub struct Transfer {
    /// The schedule the payment is booked on.
    pub schedule: Address,
    /// The treasury that pays.
    pub from: Address,
    /// The beneficiary's account that is paid.
    pub to: Address,
    /// The asset paid.
    pub mint: Address,
    /// Who signs for the treasury: the treasury's own derived address.
    pub authority: Address,
    /// The salt that, with the treasury's seeds, gives the signing address.
    pub authority_bump: u8,
    /// The units to pay.
    pub amount: u64,
    /// What the schedule had paid out when the payment was asked for.
    pub withdrawn_before: u64,
}

/// Why the token ledger did not make a payment.
#[derive(Clone, Copy, Debug, PartialEq, Eq, Structural)]
pub enum TransferError {
    InsufficientFunds,
    Rejected,
}

/// Why a payment was not booked.
#[derive(Clone, Copy, Debug, PartialEq, Eq, Structural)]
pub enum SettleError {
    /// The ledger did not pay; its answer is handed on as it came.
    Transfer(TransferError),
    /// The schedule has changed since the payment was asked for, or is not
    /// kept at all: the payment must not stand.
    Superseded,
}

/// Whether a registration goes through, or the refusal that comes first:
/// a name that may not be used, an address that is not the derived one, a
/// program already kept at the address.
pub open spec fn registration_decision(
    ctx: CreateVestingAccount,
    company_name: Seq<char>,
    occupied: bool,
) -> Result<(), ErrorCode> {
    if registration_check(ctx, company_name) is Err {
        Err(registration_check(ctx, company_name)->Err_0)
    } else if occupied {
        Err(ErrorCode::DuplicateInitialization)
    } else {
        Ok(())
    }
}

/// Whether a registration goes through in a store that keeps these programs.
pub open spec fn registration_outcome(
    programs: Map<Seq<u8>, VestingAccountView>,
    ctx: CreateVestingAccount,
    company_name: Seq<char>,
) -> Result<(), ErrorCode> {
    registration_decision(ctx, company_name, programs.contains_key(ctx.vesting_account@))
}

/// The vesting program that a registration creates.
pub open spec fn registered_program(
    ctx: CreateVestingAccount,
    company_name: Seq<char>,
) -> VestingAccountView {
    VestingAccountView {
        owner: ctx.signer@,
        mint: ctx.mint@,
        treasury_token_account: ctx.treasury_token_account@,
        company_name,
        treasury_bump: registration_check(ctx, company_name)->Ok_0.1,
        bump: registration_check(ctx, company_name)->Ok_0.0,
    }
}

/// Whether the times of a schedule are in order and it has a length.
pub open spec fn period_valid(start_time: u64, end_time: u64, cliff_time: u64) -> bool {
    start_time <= cliff_time && cliff_time <= end_time && start_time < end_time
}

/// Whether an enrollment under a program owned by `owner` goes through, or
/// the refusal that comes first: an address that is not the derived one, a
/// caller who is not the owner, a schedule already kept at the address,
/// times out of order.
pub open spec fn enrollment_decision(
    ctx: CreateEmployeeAccount,
    owner: Seq<u8>,
    occupied: bool,
    start_time: u64,
    end_time: u64,
    cliff_time: u64,
) -> Result<(), ErrorCode> {
    if enrollment_check(ctx, owner) is Err {
        Err(enrollment_check(ctx, owner)->Err_0)
    } else if occupied {
        Err(ErrorCode::DuplicateInitialization)
    } else if !period_valid(start_time, end_time, cliff_time) {
        Err(ErrorCode::InvalidVestingPeriod)
    } else {
        Ok(())
    }
}

/// Whether an enrollment goes through in a store that keeps these records.
/// A vesting program that is not kept is a mismatch of addresses.
pub open spec fn enrollment_outcome(
    programs: Map<Seq<u8>, VestingAccountView>,
    schedules: Map<Seq<u8>, EmployeeAccount>,
    ctx: CreateEmployeeAccount,
    start_time: u64,
    end_time: u64,
    cliff_time: u64,
) -> Result<(), ErrorCode> {
    if !programs.contains_key(ctx.vesting_account@) {
        Err(ErrorCode::AddressMismatch)
    } else {
        enrollment_decision(
            ctx,
            programs[ctx.vesting_account@].owner,
            schedules.contains_key(ctx.employee_account@),
            start_time,
            end_time,
            cliff_time,
        )
    }
}

/// The schedule that an enrollment creates: nothing paid out yet.
pub open spec fn enrolled_schedule(
    ctx: CreateEmployeeAccount,
    owner: Seq<u8>,
    start_time: u64,
    end_time: u64,
    total_amount: u64,
    cliff_time: u64,
) -> EmployeeAccount {
    EmployeeAccount {
        beneficiary: ctx.beneficiary,
        start_time,
        end_time,
        cliff_time,
        vesting_account: ctx.vesting_account,
        total_amount,
        total_withdrawn: 0,
        bump: enrollment_check(ctx, owner)->Ok_0,
    }
}

/// The payment a claim on these two records asks for, or the refusal that
/// comes first: from the checks of addresses, role and linkage, then from the
/// schedule's arithmetic.
pub open spec fn claim_decision(
    ctx: ClaimTokens,
    company_name: Seq<char>,
    program: VestingAccountView,
    schedule: EmployeeAccount,
    now: int,
) -> Result<Transfer, ErrorCode> {
    if claim_check(ctx, company_name, program, schedule) is Err {
        Err(claim_check(ctx, company_name, program, schedule)->Err_0)
    } else if schedule.claim_outcome(now) is Err {
        Err(schedule.claim_outcome(now)->Err_0)
    } else {
        Ok(
            Transfer {
                schedule: ctx.employee_account,
                from: ctx.treasury_token_account,
                to: ctx.employee_token_account,
                mint: ctx.mint,
                authority: ctx.treasury_token_account,
                authority_bump: program.treasury_bump,
                amount: schedule.claim_outcome(now)->Ok_0,
                withdrawn_before: schedule.total_withdrawn,
            },
        )
    }
}

/// The payment a claim asks for in a store that keeps these records. A
/// record that is not kept is a mismatch of addresses.
pub open spec fn claim_tokens_outcome(
    programs: Map<Seq<u8>, VestingAccountView>,
    schedules: Map<Seq<u8>, EmployeeAccount>,
    ctx: ClaimTokens,
    company_name: Seq<char>,
    now: int,
) -> Result<Transfer, ErrorCode> {
    if !programs.contains_key(ctx.vesting_account@) || !schedules.contains_key(
        ctx.employee_account@,
    ) {
        Err(ErrorCode::AddressMismatch)
    } else {
        claim_decision(
            ctx,
            company_name,
            programs[ctx.vesting_account@],
            schedules[ctx.employee_account@],
            now,
        )
    }
}

/// The payment was asked for on the schedule as it now is, and what is left
/// of the grant covers it.
pub open spec fn order_fits(schedule: EmployeeAccount, order: Transfer) -> bool {
    &&& schedule.total_withdrawn == order.withdrawn_before
    &&& order.withdrawn_before + order.amount <= schedule.total_amount
}

/// The schedule once a payment is booked on it.
pub open spec fn booked(schedule: EmployeeAccount, order: Transfer) -> EmployeeAccount {
    EmployeeAccount {
        total_withdrawn: (order.withdrawn_before + order.amount) as u64,
        ..schedule
    }
}

/// The units booked on a schedule, or why none were.
pub open spec fn booking(
    schedule: EmployeeAccount,
    order: Transfer,
    outcome: Result<(), TransferError>,
) -> Result<u64, SettleError> {
    match outcome {
        Err(e) => Err(SettleError::Transfer(e)),
        Ok(_) => if order_fits(schedule, order) {
            Ok(order.amount)
        } else {
            Err(SettleError::Superseded)
        },
    }
}

/// The payment was asked for on a schedule that is kept, as it is now kept,
/// and what is left of the grant covers it.
pub open spec fn order_stands(schedules: Map<Seq<u8>, EmployeeAccount>, order: Transfer) -> bool {
    schedules.contains_key(order.schedule@) && order_fits(schedules[order.schedule@], order)
}

/// The units booked in a store that keeps these schedules, or why none were.
pub open spec fn settlement(
    schedules: Map<Seq<u8>, EmployeeAccount>,
    order: Transfer,
    outcome: Result<(), TransferError>,
) -> Result<u64, SettleError> {
    match outcome {
        Err(e) => Err(SettleError::Transfer(e)),
        Ok(_) => if order_stands(schedules, order) {
            Ok(order.amount)
        } else {
            Err(SettleError::Superseded)
        },
    }
}

/// The schedules once a payment is booked.
pub open spec fn settled(schedules: Map<Seq<u8>, EmployeeAccount>, order: Transfer) -> Map<
    Seq<u8>,
    EmployeeAccount,
> {
    schedules.insert(order.schedule@, booked(schedules[order.schedule@], order))
}

impl VestingAccount {
    /// The vesting program of a registration that passed its checks, with
    /// the two salts the checks handed out.
    pub fn register(
        ctx: &CreateVestingAccount,
        company_name: String,
        bump: u8,
        treasury_bump: u8,
    ) -> (r: VestingAccount)
        ensures
            r@ == (VestingAccountView {
                owner: ctx.signer@,
                mint: ctx.mint@,
                treasury_token_account: ctx.treasury_token_account@,
                company_name: company_name@,
                treasury_bump,
                bump,
            }),
    {
        VestingAccount {
            owner: ctx.signer,
            mint: ctx.mint,
            treasury_token_account: ctx.treasury_token_account,
            company_name,
            treasury_bump,
            bump,
        }
    }
}

impl EmployeeAccount {
    /// The schedule of an enrollment that passed its checks, with the salt
    /// the checks handed out and nothing paid out; refused where the times
    /// are out of order or the schedule has no length.
    pub fn enroll(
        ctx: &CreateEmployeeAccount,
        bump: u8,
        start_time: u64,
        end_time: u64,
        total_amount: u64,
        cliff_time: u64,
    ) -> (r: Result<EmployeeAccount, ErrorCode>)
        ensures
            period_valid(start_time, end_time, cliff_time) ==> r == Ok::<
                EmployeeAccount,
                ErrorCode,
            >(
                EmployeeAccount {
                    beneficiary: ctx.beneficiary,
                    start_time,
                    end_time,
                    cliff_time,
                    vesting_account: ctx.vesting_account,
                    total_amount,
                    total_withdrawn: 0,
                    bump,
                },
            ),
            !period_valid(start_time, end_time, cliff_time) ==> r == Err::<
                EmployeeAccount,
                ErrorCode,
            >(ErrorCode::InvalidVestingPeriod),
    {
        if !(start_time <= cliff_time && cliff_time <= end_time && start_time < end_time) {
            return Err(ErrorCode::InvalidVestingPeriod);
        }
        Ok(
            EmployeeAccount {
                beneficiary: ctx.beneficiary,
                start_time,
                end_time,
                cliff_time,
                vesting_account: ctx.vesting_account,
                total_amount,
                total_withdrawn: 0,
                bump,
            },
        )
    }
}

/// Decides a registration: checks the company's name and the declared
/// addresses, refuses a duplicate where the caller found the address
/// `occupied`, and hands out the vesting program to keep, owned by the
/// caller, with the treasury's address and both salts in it.
pub fn register_company(ctx: &CreateVestingAccount, company_name: String, occupied: bool) -> (r:
    Result<VestingAccount, ErrorCode>)
    ensures
        match r {
            Ok(program) => registration_decision(*ctx, company_name@, occupied) is Ok && program@
                == registered_program(*ctx, company_name@) && program_consistent(
                ctx.vesting_account@,
                program@,
            ),
            Err(e) => registration_decision(*ctx, company_name@, occupied) == Err::<(), ErrorCode>(
                e,
            ),
        },
{
    let (bump, treasury_bump) = match authorize_registration(ctx, company_name.as_str()) {
        Ok(salts) => salts,
        Err(e) => {
            return Err(e);
        },
    };
    if occupied {
        return Err(ErrorCode::DuplicateInitialization);
    }
    Ok(VestingAccount::register(ctx, company_name, bump, treasury_bump))
}

/// Decides an enrollment under a vesting program: checks the declared
/// address and the caller, refuses a duplicate where the caller found the
/// address `occupied`, checks the times, and hands out the schedule to keep,
/// with nothing paid out.
pub fn enroll_beneficiary(
    ctx: &CreateEmployeeAccount,
    program: &VestingAccount,
    occupied: bool,
    start_time: u64,
    end_time: u64,
    total_amount: u64,
    cliff_time: u64,
) -> (r: Result<EmployeeAccount, ErrorCode>)
    ensures
        match r {
            Ok(schedule) => {
                &&& enrollment_decision(
                    *ctx,
                    program.owner@,
                    occupied,
                    start_time,
                    end_time,
                    cliff_time,
                ) is Ok
                &&& schedule == enrolled_schedule(
                    *ctx,
                    program.owner@,
                    start_time,
                    end_time,
                    total_amount,
                    cliff_time,
                )
                &&& found_employee_account(ctx.beneficiary@, ctx.vesting_account@) == Some(
                    (ctx.employee_account@, schedule.bump),
                )
                &&& rederived(
                    employee_seeds(ctx.beneficiary@, ctx.vesting_account@),
                    schedule.bump,
                ) == Some(ctx.employee_account@)
            },
            Err(e) => enrollment_decision(
                *ctx,
                program.owner@,
                occupied,
                start_time,
                end_time,
                cliff_time,
            ) == Err::<(), ErrorCode>(e),
        },
{
    let bump = match authorize_enrollment(ctx, program) {
        Ok(bump) => bump,
        Err(e) => {
            return Err(e);
        },
    };
    if occupied {
        return Err(ErrorCode::DuplicateInitialization);
    }
    EmployeeAccount::enroll(ctx, bump, start_time, end_time, total_amount, cliff_time)
}

/// Decides a claim on a schedule and its vesting program at the time `now`:
/// checks the request against the two records and computes what has vested
/// and is not yet paid out. Nothing is changed; the payment handed out is to
/// be made by the token ledger and then booked with `book_claim`.
pub fn decide_claim(
    ctx: &ClaimTokens,
    company_name: &str,
    program: &VestingAccount,
    schedule: &EmployeeAccount,
    now: i64,
) -> (r: Result<Transfer, ErrorCode>)
    ensures
        r == claim_decision(*ctx, company_name@, program@, *schedule, now as int),
{
    match authorize_claim(ctx, company_name, program, schedule) {
        Ok(_) => {},
        Err(e) => {
            return Err(e);
        },
    }
    match schedule.claimable_amount(now) {
        Ok(amount) => Ok(
            Transfer {
                schedule: ctx.employee_account,
                from: ctx.treasury_token_account,
                to: ctx.employee_token_account,
                mint: ctx.mint,
                authority: ctx.treasury_token_account,
                authority_bump: program.treasury_bump,
                amount,
                withdrawn_before: schedule.total_withdrawn,
            },
        ),
        Err(e) => Err(e),
    }
}

/// Books a payment on a schedule once the token ledger has answered. Where
/// the ledger did not pay, its answer is handed on and nothing is booked.
/// Where it paid, the amount is added to what the schedule has paid out,
/// unless the schedule has changed since the payment was asked for: then
/// nothing is booked, and the caller has to see that the payment does not
/// stand.
pub fn book_claim(
    schedule: &mut EmployeeAccount,
    order: &Transfer,
    outcome: Result<(), TransferError>,
) -> (r: Result<u64, SettleError>)
    ensures
        r == booking(*old(schedule), *order, outcome),
        r is Ok ==> *final(schedule) == booked(*old(schedule), *order),
        r is Err ==> *final(schedule) == *old(schedule),
{
    match outcome {
        Ok(_) => {},
        Err(e) => {
            return Err(SettleError::Transfer(e));
        },
    }
    if schedule.total_withdrawn != order.withdrawn_before || !schedule.book_payment(order.amount) {
        return Err(SettleError::Superseded);
    }
    Ok(order.amount)
}

/// Registers a company: creates its vesting program at the address derived
/// from the company's name, owned by the caller, with the treasury's address
/// and both salts kept in it.
pub fn create_vesting_account(
    store: &mut Registry,
    ctx: &CreateVestingAccount,
    company_name: String,
) -> (r: Result<(), ErrorCode>)
    requires
        old(store).wf(),
    ensures
        final(store).wf(),
        r == registration_outcome(old(store).programs(), *ctx, company_name@),
        final(store).schedules() == old(store).schedules(),
        r is Ok ==> final(store).programs() == old(store).programs().insert(
            ctx.vesting_account@,
            registered_program(*ctx, company_name@),
        ),
        r is Err ==> final(store).programs() == old(store).programs(),
{
    let occupied = store.vesting_account(&ctx.vesting_account).is_some();
    match register_company(ctx, company_name, occupied) {
        Ok(program) => {
            store.put_vesting_account(ctx.vesting_account, program);
            Ok(())
        },
        Err(e) => Err(e),
    }
}

/// Enrolls a beneficiary: creates the schedule at the address derived from
/// the beneficiary and the vesting program, with nothing paid out.
pub fn create_employee_account(
    store: &mut Registry,
    ctx: &CreateEmployeeAccount,
    start_time: u64,
    end_time: u64,
    total_amount: u64,
    cliff_time: u64,
) -> (r: Result<(), ErrorCode>)
    requires
        old(store).wf(),
    ensures
        final(store).wf(),
        r == enrollment_outcome(
            old(store).programs(),
            old(store).schedules(),
            *ctx,
            start_time,
            end_time,
            cliff_time,
        ),
        final(store).programs() == old(store).programs(),
        r is Ok ==> final(store).schedules() == old(store).schedules().insert(
            ctx.employee_account@,
            enrolled_schedule(
                *ctx,
                old(store).programs()[ctx.vesting_account@].owner,
                start_time,
                end_time,
                total_amount,
                cliff_time,
            ),
        ),
        r is Err ==> final(store).schedules() == old(store).schedules(),
{
    let occupied = store.employee_account(&ctx.employee_account).is_some();
    let decided = match store.vesting_account(&ctx.vesting_account) {
        Some(program) => enroll_beneficiary(
            ctx,
            program,
            occupied,
            start_time,
            end_time,
            total_amount,
            cliff_time,
        ),
        None => Err(ErrorCode::AddressMismatch),
    };
    match decided {
        Ok(schedule) => {
            store.put_employee_account(ctx.employee_account, schedule);
            Ok(())
        },
        Err(e) => Err(e),
    }
}

/// Decides a claim at the time `now` on the records that the store keeps.
/// Nothing is changed; the payment handed out is to be made by the token
/// ledger and then booked with `settle_claim`.
pub fn claim_tokens(store: &Registry, ctx: &ClaimTokens, company_name: String, now: i64) -> (r:
    Result<Transfer, ErrorCode>)
    requires
        store.wf(),
    ensures
        r == claim_tokens_outcome(
            store.programs(),
            store.schedules(),
            *ctx,
            company_name@,
            now as int,
        ),
{
    let program = match store.vesting_account(&ctx.vesting_account) {
        Some(program) => program,
        None => {
            return Err(ErrorCode::AddressMismatch);
        },
    };
    let schedule = match store.employee_account(&ctx.employee_account) {
        Some(schedule) => schedule,
        None => {
            return Err(ErrorCode::AddressMismatch);
        },
    };
    decide_claim(ctx, company_name.as_str(), program, &schedule, now)
}

/// Books a payment in the store once the token ledger has answered. Where
/// the ledger did not pay, its answer is handed on and nothing is booked.
/// Where it paid, the amount is added to what the schedule has paid out,
/// unless the schedule is not kept or has changed since the payment was asked
/// for: then nothing is booked, and the caller has to see that the payment
/// does not stand.
pub fn settle_claim(store: &mut Registry, order: &Transfer, outcome: Result<(), TransferError>) -> (r:
    Result<u64, SettleError>)
    requires
        old(store).wf(),
    ensures
        final(store).wf(),
        r == settlement(old(store).schedules(), *order, outcome),
        final(store).programs() == old(store).programs(),
        r is Ok ==> final(store).schedules() == settled(old(store).schedules(), *order),
        r is Err ==> final(store).schedules() == old(store).schedules(),
{
    let mut schedule = match store.employee_account(&order.schedule) {
        Some(schedule) => schedule,
        None => {
            return match outcome {
                Ok(_) => Err(SettleError::Superseded),
                Err(e) => Err(SettleError::Transfer(e)),
            };
        },
    };
    match book_claim(&mut schedule, order, outcome) {
        Ok(amount) => {
            store.put_employee_account(order.schedule, schedule);
            Ok(amount)
        },
        Err(e) => Err(e),
    }
}

} // verus!
