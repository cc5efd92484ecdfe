//! What holds of the operations taken together.

use crate::error::ErrorCode;
use crate::derivation::{found_treasury, found_vesting_account};
use crate::guard::{
    claim_check, company_name_valid, enrollment_check, registration_check, ClaimTokens,
    CreateEmployeeAccount, CreateVestingAccount,
};
use crate::instructions::{
    claim_tokens_outcome, enrolled_schedule, enrollment_outcome, order_stands,
    registered_program, registration_outcome, settled, settlement, SettleError, Transfer,
};
use crate::registry::{consistent, program_consistent, schedule_consistent};
use crate::state::{EmployeeAccount, VestingAccountView};
use crate::vesting::{lemma_claim_conserves, lemma_vested_monotonic};
use vstd::prelude::*;

verus! {

/// A company's name is unique: two vesting programs kept under the same
/// name are kept under the same address.
pub proof fn lemma_company_name_unique(
    programs: Map<Seq<u8>, VestingAccountView>,
    schedules: Map<Seq<u8>, EmployeeAccount>,
    first: Seq<u8>,
    second: Seq<u8>,
)
    requires
        consistent(programs, schedules),
        programs.contains_key(first),
        programs.contains_key(second),
        programs[first].company_name == programs[second].company_name,
    ensures
        first == second,
{
    assert(program_consistent(first, programs[first]));
    assert(program_consistent(second, programs[second]));
}

/// A name that may be used registers: where the name is not empty and no
/// longer than a name may be, the addresses declared are the ones found for
/// it, and no program is kept at the program's address, the registration
/// goes through and keeps the program with the two salts found.
pub proof fn lemma_fresh_name_registers(
    programs: Map<Seq<u8>, VestingAccountView>,
    ctx: CreateVestingAccount,
    company_name: Seq<char>,
    bump: u8,
    treasury_bump: u8,
)
    requires
        company_name_valid(company_name),
        found_vesting_account(company_name) == Some((ctx.vesting_account@, bump)),
        found_treasury(company_name) == Some((ctx.treasury_token_account@, treasury_bump)),
        !programs.contains_key(ctx.vesting_account@),
    ensures
        registration_outcome(programs, ctx, company_name) == Ok::<(), ErrorCode>(()),
        registered_program(ctx, company_name) == (VestingAccountView {
            owner: ctx.signer@,
            mint: ctx.mint@,
            treasury_token_account: ctx.treasury_token_account@,
            company_name,
            treasury_bump,
            bump,
        }),
{
}

/// A name that may not be used never registers: an empty name, or one longer
/// than a name may be, is refused for the name, whatever else is asked.
pub proof fn lemma_bad_name_is_refused(
    programs: Map<Seq<u8>, VestingAccountView>,
    ctx: CreateVestingAccount,
    company_name: Seq<char>,
)
    requires
        !company_name_valid(company_name),
    ensures
        registration_outcome(programs, ctx, company_name) == Err::<(), ErrorCode>(
            ErrorCode::InvalidCompanyName,
        ),
{
}

/// A second company registers beside the first: once one is registered, a
/// registration under another address that passes its checks goes through
/// where no program is kept at that address, and the first company's
/// program stays as it was.
pub proof fn lemma_second_company_registers(
    programs: Map<Seq<u8>, VestingAccountView>,
    first: CreateVestingAccount,
    first_name: Seq<char>,
    second: CreateVestingAccount,
    second_name: Seq<char>,
)
    requires
        registration_outcome(programs, first, first_name) is Ok,
        registration_check(second, second_name) is Ok,
        second.vesting_account@ != first.vesting_account@,
        !programs.contains_key(second.vesting_account@),
    ensures
        ({
            let after_first = programs.insert(
                first.vesting_account@,
                registered_program(first, first_name),
            );
            let after_second = after_first.insert(
                second.vesting_account@,
                registered_program(second, second_name),
            );
            &&& registration_outcome(after_first, second, second_name) == Ok::<(), ErrorCode>(())
            &&& after_second[first.vesting_account@] == registered_program(first, first_name)
            &&& after_second[second.vesting_account@] == registered_program(second, second_name)
        }),
{
}

/// Once a company is registered, registering under the same name again is
/// refused, whoever asks and whatever asset is named: as a duplicate where
/// the same addresses are declared, and as a mismatch of addresses otherwise.
pub proof fn lemma_no_double_registration(
    programs: Map<Seq<u8>, VestingAccountView>,
    first: CreateVestingAccount,
    second: CreateVestingAccount,
    company_name: Seq<char>,
)
    requires
        registration_outcome(programs, first, company_name) is Ok,
    ensures
        registration_outcome(
            programs.insert(first.vesting_account@, registered_program(first, company_name)),
            second,
            company_name,
        ) is Err,
        second.vesting_account@ == first.vesting_account@ && second.treasury_token_account@
            == first.treasury_token_account@ ==> registration_outcome(
            programs.insert(first.vesting_account@, registered_program(first, company_name)),
            second,
            company_name,
        ) == Err::<(), ErrorCode>(ErrorCode::DuplicateInitialization),
{
}

/// Once a beneficiary is enrolled under a vesting program, enrolling the
/// same beneficiary under the same program again is refused, whatever the
/// schedule asked for: as a duplicate where the program's owner asks again
/// for the same address, and never with success.
pub proof fn lemma_no_double_enrollment(
    programs: Map<Seq<u8>, VestingAccountView>,
    schedules: Map<Seq<u8>, EmployeeAccount>,
    first: CreateEmployeeAccount,
    start_time: u64,
    end_time: u64,
    total_amount: u64,
    cliff_time: u64,
    second: CreateEmployeeAccount,
    second_start_time: u64,
    second_end_time: u64,
    second_cliff_time: u64,
)
    requires
        enrollment_outcome(programs, schedules, first, start_time, end_time, cliff_time) is Ok,
        second.beneficiary@ == first.beneficiary@,
        second.vesting_account@ == first.vesting_account@,
    ensures
        enrollment_outcome(
            programs,
            schedules.insert(
                first.employee_account@,
                enrolled_schedule(
                    first,
                    programs[first.vesting_account@].owner,
                    start_time,
                    end_time,
                    total_amount,
                    cliff_time,
                ),
            ),
            second,
            second_start_time,
            second_end_time,
            second_cliff_time,
        ) is Err,
        second.owner@ == first.owner@ && second.employee_account@ == first.employee_account@
            ==> enrollment_outcome(
            programs,
            schedules.insert(
                first.employee_account@,
                enrolled_schedule(
                    first,
                    programs[first.vesting_account@].owner,
                    start_time,
                    end_time,
                    total_amount,
                    cliff_time,
                ),
            ),
            second,
            second_start_time,
            second_end_time,
            second_cliff_time,
        ) == Err::<(), ErrorCode>(ErrorCode::DuplicateInitialization),
{
}

/// A schedule that is kept can be claimed on by its beneficiary: a request
/// that names the schedule, its program, and the program's asset and
/// treasury passes every check of addresses, role and linkage, so that the
/// claim is decided by the schedule's arithmetic alone.
pub proof fn lemma_kept_schedule_can_be_claimed(
    programs: Map<Seq<u8>, VestingAccountView>,
    schedules: Map<Seq<u8>, EmployeeAccount>,
    ctx: ClaimTokens,
    now: int,
)
    requires
        consistent(programs, schedules),
        schedules.contains_key(ctx.employee_account@),
        ctx.beneficiary@ == schedules[ctx.employee_account@].beneficiary@,
        ctx.vesting_account@ == schedules[ctx.employee_account@].vesting_account@,
        ctx.mint@ == programs[ctx.vesting_account@].mint,
        ctx.treasury_token_account@ == programs[ctx.vesting_account@].treasury_token_account,
    ensures
        programs.contains_key(ctx.vesting_account@),
        claim_check(
            ctx,
            programs[ctx.vesting_account@].company_name,
            programs[ctx.vesting_account@],
            schedules[ctx.employee_account@],
        ) is Ok,
        claim_tokens_outcome(
            programs,
            schedules,
            ctx,
            programs[ctx.vesting_account@].company_name,
            now,
        ) is Ok <==> schedules[ctx.employee_account@].claim_outcome(now) is Ok,
        schedules[ctx.employee_account@].claim_outcome(now) is Err ==> claim_tokens_outcome(
            programs,
            schedules,
            ctx,
            programs[ctx.vesting_account@].company_name,
            now,
        ) == Err::<Transfer, ErrorCode>(schedules[ctx.employee_account@].claim_outcome(now)->Err_0),
{
    let schedule = schedules[ctx.employee_account@];
    assert(schedule_consistent(programs, ctx.employee_account@, schedule));
    assert(program_consistent(ctx.vesting_account@, programs[ctx.vesting_account@]));
}

/// Before the cliff no claim goes through and nothing is asked of the
/// ledger; a request that passes the checks is refused as not yet available.
pub proof fn lemma_claim_before_cliff_refused(
    programs: Map<Seq<u8>, VestingAccountView>,
    schedules: Map<Seq<u8>, EmployeeAccount>,
    ctx: ClaimTokens,
    company_name: Seq<char>,
    now: int,
)
    requires
        schedules.contains_key(ctx.employee_account@),
        now < schedules[ctx.employee_account@].cliff_time,
    ensures
        claim_tokens_outcome(programs, schedules, ctx, company_name, now) is Err,
        programs.contains_key(ctx.vesting_account@) && claim_check(
            ctx,
            company_name,
            programs[ctx.vesting_account@],
            schedules[ctx.employee_account@],
        ) is Ok ==> claim_tokens_outcome(programs, schedules, ctx, company_name, now) == Err::<
            Transfer,
            ErrorCode,
        >(ErrorCode::ClaimNotAvailableYet),
{
}

/// A claim that goes through asks for exactly what has vested and is not yet
/// paid out, which is more than nothing; from the end of the schedule on
/// that is all that is left of the grant. Booking the payment leaves every
/// record consistent, with the schedule having paid out what has vested.
pub proof fn lemma_claim_pays_what_vested(
    programs: Map<Seq<u8>, VestingAccountView>,
    schedules: Map<Seq<u8>, EmployeeAccount>,
    ctx: ClaimTokens,
    company_name: Seq<char>,
    now: int,
)
    requires
        consistent(programs, schedules),
        claim_tokens_outcome(programs, schedules, ctx, company_name, now) is Ok,
    ensures
        ({
            let order = claim_tokens_outcome(programs, schedules, ctx, company_name, now)->Ok_0;
            let before = schedules[ctx.employee_account@];
            let after = settled(schedules, order)[ctx.employee_account@];
            &&& order.amount > 0
            &&& order.amount + before.total_withdrawn == before.vested_at(now)
            &&& now >= before.end_time ==> order.amount == before.total_amount
                - before.total_withdrawn
            &&& settlement(schedules, order, Ok(())) == Ok::<u64, SettleError>(order.amount)
            &&& after.total_withdrawn == before.vested_at(now)
            &&& after.total_withdrawn <= after.total_amount
            &&& consistent(programs, settled(schedules, order))
        }),
{
    let order = claim_tokens_outcome(programs, schedules, ctx, company_name, now)->Ok_0;
    let before = schedules[ctx.employee_account@];
    lemma_claim_conserves(before, now);
    assert(schedule_consistent(programs, ctx.employee_account@, before));
    assert(order_stands(schedules, order));
    let after_all = settled(schedules, order);
    assert forall|address: Seq<u8>| #[trigger] after_all.contains_key(address) implies
        schedule_consistent(programs, address, after_all[address]) by {
        if address != ctx.employee_account@ {
            assert(schedules.contains_key(address));
        }
    }
}

/// Of two claims decided on the same state of one schedule, only one is
/// booked: once the first payment is booked, the second is superseded and
/// changes nothing, so that what is paid out in all is what had vested when
/// the first was decided.
pub proof fn lemma_concurrent_claims_pay_once(
    programs: Map<Seq<u8>, VestingAccountView>,
    schedules: Map<Seq<u8>, EmployeeAccount>,
    first: ClaimTokens,
    first_now: int,
    second: ClaimTokens,
    second_now: int,
    company_name: Seq<char>,
)
    requires
        consistent(programs, schedules),
        first.employee_account@ == second.employee_account@,
        claim_tokens_outcome(programs, schedules, first, company_name, first_now) is Ok,
        claim_tokens_outcome(programs, schedules, second, company_name, second_now) is Ok,
    ensures
        ({
            let paid = claim_tokens_outcome(programs, schedules, first, company_name, first_now)->Ok_0;
            let late = claim_tokens_outcome(
                programs,
                schedules,
                second,
                company_name,
                second_now,
            )->Ok_0;
            &&& settlement(schedules, paid, Ok(())) == Ok::<u64, SettleError>(paid.amount)
            &&& settlement(settled(schedules, paid), late, Ok(())) == Err::<u64, SettleError>(
                SettleError::Superseded,
            )
            &&& paid.amount == schedules[first.employee_account@].vested_at(first_now)
                - schedules[first.employee_account@].total_withdrawn
        }),
{
    lemma_claim_pays_what_vested(programs, schedules, first, company_name, first_now);
    lemma_claim_pays_what_vested(programs, schedules, second, company_name, second_now);
}

/// Once a claim is booked, asking again pays nothing more: a claim on the
/// same schedule at that time or earlier does not go through, and at that
/// very time, or at any later time where the first came at the end of the
/// schedule or after it, it is refused for having nothing to claim.
pub proof fn lemma_claim_again_has_nothing(
    programs: Map<Seq<u8>, VestingAccountView>,
    schedules: Map<Seq<u8>, EmployeeAccount>,
    ctx: ClaimTokens,
    company_name: Seq<char>,
    now: int,
    again: int,
)
    requires
        consistent(programs, schedules),
        claim_tokens_outcome(programs, schedules, ctx, company_name, now) is Ok,
    ensures
        ({
            let order = claim_tokens_outcome(programs, schedules, ctx, company_name, now)->Ok_0;
            let retried = claim_tokens_outcome(
                programs,
                settled(schedules, order),
                ctx,
                company_name,
                again,
            );
            &&& again <= now ==> retried is Err
            &&& again == now || (now >= schedules[ctx.employee_account@].end_time && again >= now)
                ==> retried == Err::<Transfer, ErrorCode>(ErrorCode::NothingToClaim)
        }),
{
    let before = schedules[ctx.employee_account@];
    lemma_claim_pays_what_vested(programs, schedules, ctx, company_name, now);
    assert(schedule_consistent(programs, ctx.employee_account@, before));
    if again <= now {
        lemma_vested_monotonic(
            before.total_amount as int,
            before.start_time as int,
            before.end_time as int,
            again,
            now,
        );
    }
}

} // verus!
