use tokenvesting::derivation::{
    employee_account_seeds, treasury_account_seeds, vesting_account_seeds,
};
use tokenvesting::guard::{
    authorize_registration, check_claim, check_company_name, check_enrollment, check_registration,
};
use tokenvesting::{
    book_claim, claim_tokens, create_employee_account, create_vesting_account, decide_claim,
    enroll_beneficiary, register_company, settle_claim, Address, ClaimTokens,
    CreateEmployeeAccount, CreateVestingAccount, EmployeeAccount, ErrorCode, Registry,
    SettleError, Transfer, TransferError, VestingAccount,
};

const START: u64 = 1000;
const CLIFF: u64 = 1000 + 2_592_000;
const END: u64 = 1000 + 31_536_000;

fn owner() -> Address {
    Address::new([1u8; 32])
}

fn mint() -> Address {
    Address::new([2u8; 32])
}

fn employee() -> Address {
    Address::new([3u8; 32])
}

fn wallet() -> Address {
    Address::new([4u8; 32])
}

fn found(seeds: Vec<Vec<u8>>) -> (Address, u8) {
    tokenvesting::derivation::derive(&seeds).unwrap()
}

fn registration(name: &str) -> CreateVestingAccount {
    CreateVestingAccount {
        signer: owner(),
        vesting_account: found(vesting_account_seeds(name)).0,
        mint: mint(),
        treasury_token_account: found(treasury_account_seeds(name)).0,
    }
}

fn enrollment(name: &str, beneficiary: Address) -> CreateEmployeeAccount {
    let vesting_account = found(vesting_account_seeds(name)).0;
    CreateEmployeeAccount {
        owner: owner(),
        beneficiary,
        vesting_account,
        employee_account: found(employee_account_seeds(&beneficiary, &vesting_account)).0,
    }
}

fn claim(name: &str, beneficiary: Address) -> ClaimTokens {
    let enrolled = enrollment(name, beneficiary);
    ClaimTokens {
        beneficiary,
        employee_account: enrolled.employee_account,
        vesting_account: enrolled.vesting_account,
        mint: mint(),
        treasury_token_account: found(treasury_account_seeds(name)).0,
        employee_token_account: wallet(),
    }
}

fn acme() -> Registry {
    let mut store = Registry::new();
    assert_eq!(create_vesting_account(&mut store, &registration("Acme"), "Acme".to_string()), Ok(()));
    assert_eq!(
        create_employee_account(
            &mut store,
            &enrollment("Acme", employee()),
            START,
            END,
            1_000_000,
            CLIFF
        ),
        Ok(())
    );
    store
}

#[test]
fn registration_keeps_the_program() {
    let mut store = Registry::new();
    let ctx = registration("Acme");
    assert!(store.vesting_account(&ctx.vesting_account).is_none());
    assert_eq!(create_vesting_account(&mut store, &ctx, "Acme".to_string()), Ok(()));
    let expected = VestingAccount {
        owner: owner(),
        mint: mint(),
        treasury_token_account: ctx.treasury_token_account,
        company_name: "Acme".to_string(),
        treasury_bump: found(treasury_account_seeds("Acme")).1,
        bump: found(vesting_account_seeds("Acme")).1,
    };
    assert_eq!(store.vesting_account(&ctx.vesting_account), Some(&expected));
}

#[test]
fn registering_twice_is_a_duplicate() {
    let mut store = Registry::new();
    let ctx = registration("Acme");
    assert_eq!(create_vesting_account(&mut store, &ctx, "Acme".to_string()), Ok(()));
    assert_eq!(
        create_vesting_account(&mut store, &ctx, "Acme".to_string()),
        Err(ErrorCode::DuplicateInitialization)
    );
    let mut other = ctx;
    other.signer = employee();
    other.mint = wallet();
    assert_eq!(
        create_vesting_account(&mut store, &other, "Acme".to_string()),
        Err(ErrorCode::DuplicateInitialization)
    );
    assert_eq!(store.vesting_account(&ctx.vesting_account).unwrap().owner, owner());
}

#[test]
fn registration_under_a_wrong_address_is_a_mismatch() {
    let mut store = Registry::new();
    let mut ctx = registration("Acme");
    ctx.vesting_account = registration("Apex").vesting_account;
    assert_eq!(
        create_vesting_account(&mut store, &ctx, "Acme".to_string()),
        Err(ErrorCode::AddressMismatch)
    );
    let mut ctx = registration("Acme");
    ctx.treasury_token_account = ctx.vesting_account;
    assert_eq!(
        create_vesting_account(&mut store, &ctx, "Acme".to_string()),
        Err(ErrorCode::AddressMismatch)
    );
    assert!(store.vesting_account(&registration("Acme").vesting_account).is_none());
}

#[test]
fn name_longer_than_a_seed_registers() {
    let mut store = Registry::new();
    for length in [32usize, 33, 49, 50] {
        let name = "a".repeat(length);
        let ctx = registration(&name);
        assert_eq!(create_vesting_account(&mut store, &ctx, name.clone()), Ok(()));
        let kept = store.vesting_account(&ctx.vesting_account).unwrap();
        assert_eq!(kept.company_name, name);
        assert_eq!(kept.owner, owner());
        assert_eq!(kept.treasury_token_account, ctx.treasury_token_account);
        assert_eq!(kept.bump, found(vesting_account_seeds(&name)).1);
        assert_eq!(kept.treasury_bump, found(treasury_account_seeds(&name)).1);
    }
}

#[test]
fn name_of_fifty_bytes_in_two_byte_letters_registers() {
    let mut store = Registry::new();
    let name = "\u{e9}".repeat(25);
    assert_eq!(name.len(), 50);
    let ctx = registration(&name);
    assert_eq!(create_vesting_account(&mut store, &ctx, name.clone()), Ok(()));
    assert_eq!(store.vesting_account(&ctx.vesting_account).unwrap().company_name, name);
}

#[test]
fn empty_name_is_refused_and_nothing_is_kept() {
    let mut store = Registry::new();
    let ctx = registration("");
    assert_eq!(
        create_vesting_account(&mut store, &ctx, String::new()),
        Err(ErrorCode::InvalidCompanyName)
    );
    assert!(store.vesting_account(&ctx.vesting_account).is_none());
}

#[test]
fn name_longer_than_fifty_bytes_is_refused_and_nothing_is_kept() {
    let mut store = Registry::new();
    let name = "a".repeat(51);
    let ctx = registration(&name);
    assert_eq!(
        create_vesting_account(&mut store, &ctx, name),
        Err(ErrorCode::InvalidCompanyName)
    );
    assert!(store.vesting_account(&ctx.vesting_account).is_none());
    let letters = "\u{e9}".repeat(26);
    assert_eq!(
        create_vesting_account(&mut store, &registration(&letters), letters),
        Err(ErrorCode::InvalidCompanyName)
    );
}

#[test]
fn bad_name_is_refused_before_the_addresses_are_checked() {
    let ctx = CreateVestingAccount {
        signer: owner(),
        vesting_account: Address::new([8u8; 32]),
        mint: mint(),
        treasury_token_account: Address::new([9u8; 32]),
    };
    assert_eq!(register_company(&ctx, String::new(), true), Err(ErrorCode::InvalidCompanyName));
    assert_eq!(
        register_company(&ctx, "a".repeat(51), false),
        Err(ErrorCode::InvalidCompanyName)
    );
    assert_eq!(authorize_registration(&ctx, ""), Err(ErrorCode::InvalidCompanyName));
    assert_eq!(check_company_name(""), Err(ErrorCode::InvalidCompanyName));
    assert_eq!(check_company_name("a"), Ok(()));
    assert_eq!(check_company_name(&"a".repeat(50)), Ok(()));
    assert_eq!(check_company_name(&"a".repeat(51)), Err(ErrorCode::InvalidCompanyName));
    assert_eq!(register_company(&ctx, "Acme".to_string(), false), Err(ErrorCode::AddressMismatch));
}

#[test]
fn claims_are_paid_under_a_long_name() {
    let name = "Acme Industrial Holdings of the Northern Territory";
    assert_eq!(name.len(), 50);
    let mut store = Registry::new();
    assert_eq!(create_vesting_account(&mut store, &registration(name), name.to_string()), Ok(()));
    assert_eq!(
        create_employee_account(&mut store, &enrollment(name, employee()), START, END, 1_000_000, CLIFF),
        Ok(())
    );
    let ctx = claim(name, employee());
    let order = claim_tokens(&store, &ctx, name.to_string(), CLIFF as i64).unwrap();
    assert_eq!(order.amount, 82_191);
    assert_eq!(order.authority_bump, found(treasury_account_seeds(name)).1);
    assert_eq!(settle_claim(&mut store, &order, Ok(())), Ok(82_191));
}

#[test]
fn registration_decision_refuses_an_occupied_address() {
    let ctx = registration("Acme");
    assert_eq!(
        register_company(&ctx, "Acme".to_string(), true),
        Err(ErrorCode::DuplicateInitialization)
    );
    let program = register_company(&ctx, "Acme".to_string(), false).unwrap();
    assert_eq!(program.owner, owner());
    assert_eq!(program.mint, mint());
    assert_eq!(program.company_name, "Acme");
    assert_eq!(program.treasury_token_account, ctx.treasury_token_account);
    assert_eq!(program.bump, found(vesting_account_seeds("Acme")).1);
    assert_eq!(program.treasury_bump, found(treasury_account_seeds("Acme")).1);
}

#[test]
fn enrollment_decision_follows_guard_duplicate_and_times() {
    let program = register_company(&registration("Acme"), "Acme".to_string(), false).unwrap();
    let ctx = enrollment("Acme", employee());
    let schedule = enroll_beneficiary(&ctx, &program, false, START, END, 1_000_000, CLIFF).unwrap();
    assert_eq!(schedule.total_withdrawn, 0);
    assert_eq!(schedule.total_amount, 1_000_000);
    assert_eq!(schedule.beneficiary, employee());
    assert_eq!(schedule.vesting_account, ctx.vesting_account);
    assert_eq!(
        enroll_beneficiary(&ctx, &program, true, 5, 5, 1, 5),
        Err(ErrorCode::DuplicateInitialization)
    );
    assert_eq!(
        enroll_beneficiary(&ctx, &program, false, 5, 5, 1, 5),
        Err(ErrorCode::InvalidVestingPeriod)
    );
    let mut stranger = ctx;
    stranger.owner = wallet();
    assert_eq!(
        enroll_beneficiary(&stranger, &program, true, 5, 5, 1, 5),
        Err(ErrorCode::Unauthorized)
    );
}

#[test]
fn claim_is_decided_and_booked_on_the_records_alone() {
    let program = register_company(&registration("Acme"), "Acme".to_string(), false).unwrap();
    let mut schedule = enroll_beneficiary(
        &enrollment("Acme", employee()),
        &program,
        false,
        START,
        END,
        1_000_000,
        CLIFF,
    )
    .unwrap();
    let ctx = claim("Acme", employee());
    assert_eq!(
        decide_claim(&ctx, "Acme", &program, &schedule, START as i64),
        Err(ErrorCode::ClaimNotAvailableYet)
    );
    let order = decide_claim(&ctx, "Acme", &program, &schedule, CLIFF as i64).unwrap();
    assert_eq!(order.amount, 82_191);
    assert_eq!(order.from, ctx.treasury_token_account);
    assert_eq!(order.to, wallet());
    assert_eq!(
        book_claim(&mut schedule, &order, Err(TransferError::Rejected)),
        Err(SettleError::Transfer(TransferError::Rejected))
    );
    assert_eq!(schedule.total_withdrawn, 0);
    assert_eq!(book_claim(&mut schedule, &order, Ok(())), Ok(82_191));
    assert_eq!(schedule.total_withdrawn, 82_191);
    assert_eq!(book_claim(&mut schedule, &order, Ok(())), Err(SettleError::Superseded));
    assert_eq!(schedule.total_withdrawn, 82_191);
    assert_eq!(
        decide_claim(&ctx, "Acme", &program, &schedule, CLIFF as i64),
        Err(ErrorCode::NothingToClaim)
    );
    let mut stranger = ctx;
    stranger.beneficiary = wallet();
    assert_eq!(
        decide_claim(&stranger, "Acme", &program, &schedule, END as i64),
        Err(ErrorCode::Unauthorized)
    );
}

#[test]
fn two_companies_register_side_by_side() {
    let mut store = Registry::new();
    assert_eq!(create_vesting_account(&mut store, &registration("Acme"), "Acme".to_string()), Ok(()));
    assert_eq!(create_vesting_account(&mut store, &registration("Apex"), "Apex".to_string()), Ok(()));
    let acme = store.vesting_account(&registration("Acme").vesting_account).unwrap();
    let apex = store.vesting_account(&registration("Apex").vesting_account).unwrap();
    assert_eq!(acme.company_name, "Acme");
    assert_eq!(apex.company_name, "Apex");
}

#[test]
fn enrollment_keeps_the_schedule_with_nothing_withdrawn() {
    let store = acme();
    let ctx = enrollment("Acme", employee());
    let expected = EmployeeAccount {
        beneficiary: employee(),
        start_time: START,
        end_time: END,
        cliff_time: CLIFF,
        vesting_account: ctx.vesting_account,
        total_amount: 1_000_000,
        total_withdrawn: 0,
        bump: found(employee_account_seeds(&employee(), &ctx.vesting_account)).1,
    };
    assert_eq!(store.employee_account(&ctx.employee_account), Some(expected));
}

#[test]
fn enrolling_twice_is_a_duplicate() {
    let mut store = acme();
    let ctx = enrollment("Acme", employee());
    assert_eq!(
        create_employee_account(&mut store, &ctx, START, END, 1_000_000, CLIFF),
        Err(ErrorCode::DuplicateInitialization)
    );
    assert_eq!(
        create_employee_account(&mut store, &ctx, 5, 5, 77, 9),
        Err(ErrorCode::DuplicateInitialization)
    );
    assert_eq!(store.employee_account(&ctx.employee_account).unwrap().total_amount, 1_000_000);
}

#[test]
fn enrollment_by_another_than_the_owner_is_unauthorized() {
    let mut store = acme();
    let mut ctx = enrollment("Acme", wallet());
    ctx.owner = employee();
    assert_eq!(
        create_employee_account(&mut store, &ctx, START, END, 10, CLIFF),
        Err(ErrorCode::Unauthorized)
    );
    assert!(store.employee_account(&ctx.employee_account).is_none());
}

#[test]
fn enrollment_under_a_wrong_address_is_a_mismatch() {
    let mut store = acme();
    let mut ctx = enrollment("Acme", wallet());
    ctx.employee_account = enrollment("Acme", employee()).employee_account;
    assert_eq!(
        create_employee_account(&mut store, &ctx, START, END, 10, CLIFF),
        Err(ErrorCode::AddressMismatch)
    );
}

#[test]
fn enrollment_under_an_unknown_program_is_a_mismatch() {
    let mut store = acme();
    let ctx = enrollment("Apex", employee());
    assert_eq!(
        create_employee_account(&mut store, &ctx, START, END, 10, CLIFF),
        Err(ErrorCode::AddressMismatch)
    );
}

#[test]
fn enrollment_with_times_out_of_order_is_invalid() {
    let mut store = acme();
    let ctx = enrollment("Acme", wallet());
    assert_eq!(
        create_employee_account(&mut store, &ctx, 100, 100, 10, 100),
        Err(ErrorCode::InvalidVestingPeriod)
    );
    assert_eq!(
        create_employee_account(&mut store, &ctx, 100, 200, 10, 99),
        Err(ErrorCode::InvalidVestingPeriod)
    );
    assert_eq!(
        create_employee_account(&mut store, &ctx, 100, 200, 10, 201),
        Err(ErrorCode::InvalidVestingPeriod)
    );
    assert_eq!(
        create_employee_account(&mut store, &ctx, 200, 100, 10, 150),
        Err(ErrorCode::InvalidVestingPeriod)
    );
    assert!(store.employee_account(&ctx.employee_account).is_none());
    assert_eq!(create_employee_account(&mut store, &ctx, 100, 200, 10, 100), Ok(()));
    assert_eq!(store.employee_account(&ctx.employee_account).unwrap().cliff_time, 100);
}

#[test]
fn claims_follow_the_schedule_from_cliff_to_end() {
    let mut store = acme();
    let ctx = claim("Acme", employee());

    let order = claim_tokens(&store, &ctx, "Acme".to_string(), CLIFF as i64).unwrap();
    assert_eq!(
        order,
        Transfer {
            schedule: ctx.employee_account,
            from: ctx.treasury_token_account,
            to: wallet(),
            mint: mint(),
            authority: ctx.treasury_token_account,
            authority_bump: found(treasury_account_seeds("Acme")).1,
            amount: 82_191,
            withdrawn_before: 0,
        }
    );
    assert_eq!(store.employee_account(&ctx.employee_account).unwrap().total_withdrawn, 0);
    assert_eq!(settle_claim(&mut store, &order, Ok(())), Ok(82_191));
    assert_eq!(store.employee_account(&ctx.employee_account).unwrap().total_withdrawn, 82_191);

    let order = claim_tokens(&store, &ctx, "Acme".to_string(), END as i64).unwrap();
    assert_eq!(order.amount, 917_809);
    assert_eq!(order.withdrawn_before, 82_191);
    assert_eq!(settle_claim(&mut store, &order, Ok(())), Ok(917_809));
    assert_eq!(store.employee_account(&ctx.employee_account).unwrap().total_withdrawn, 1_000_000);

    assert_eq!(
        claim_tokens(&store, &ctx, "Acme".to_string(), END as i64 + 1),
        Err(ErrorCode::NothingToClaim)
    );
    assert_eq!(
        claim_tokens(&store, &ctx, "Acme".to_string(), i64::MAX),
        Err(ErrorCode::NothingToClaim)
    );
}

#[test]
fn claim_at_start_is_refused_and_changes_nothing() {
    let store = acme();
    let ctx = claim("Acme", employee());
    assert_eq!(
        claim_tokens(&store, &ctx, "Acme".to_string(), START as i64),
        Err(ErrorCode::ClaimNotAvailableYet)
    );
    assert_eq!(store.employee_account(&ctx.employee_account).unwrap().total_withdrawn, 0);
}

#[test]
fn claim_right_after_a_claim_has_nothing() {
    let mut store = acme();
    let ctx = claim("Acme", employee());
    let order = claim_tokens(&store, &ctx, "Acme".to_string(), CLIFF as i64).unwrap();
    assert_eq!(settle_claim(&mut store, &order, Ok(())), Ok(82_191));
    assert_eq!(
        claim_tokens(&store, &ctx, "Acme".to_string(), CLIFF as i64),
        Err(ErrorCode::NothingToClaim)
    );
}

#[test]
fn failed_transfer_is_handed_on_and_books_nothing() {
    let mut store = acme();
    let ctx = claim("Acme", employee());
    let order = claim_tokens(&store, &ctx, "Acme".to_string(), CLIFF as i64).unwrap();
    assert_eq!(
        settle_claim(&mut store, &order, Err(TransferError::InsufficientFunds)),
        Err(SettleError::Transfer(TransferError::InsufficientFunds))
    );
    assert_eq!(
        settle_claim(&mut store, &order, Err(TransferError::Rejected)),
        Err(SettleError::Transfer(TransferError::Rejected))
    );
    assert_eq!(store.employee_account(&ctx.employee_account).unwrap().total_withdrawn, 0);
    assert_eq!(claim_tokens(&store, &ctx, "Acme".to_string(), CLIFF as i64), Ok(order));
}

#[test]
fn of_two_claims_decided_together_one_is_booked() {
    let mut store = acme();
    let ctx = claim("Acme", employee());
    let first = claim_tokens(&store, &ctx, "Acme".to_string(), CLIFF as i64).unwrap();
    let second = claim_tokens(&store, &ctx, "Acme".to_string(), CLIFF as i64 + 10).unwrap();
    assert_eq!(settle_claim(&mut store, &first, Ok(())), Ok(82_191));
    assert_eq!(settle_claim(&mut store, &second, Ok(())), Err(SettleError::Superseded));
    assert_eq!(settle_claim(&mut store, &first, Ok(())), Err(SettleError::Superseded));
    assert_eq!(store.employee_account(&ctx.employee_account).unwrap().total_withdrawn, 82_191);
}

#[test]
fn payment_beyond_the_grant_is_not_booked() {
    let mut store = acme();
    let ctx = claim("Acme", employee());
    let mut order = claim_tokens(&store, &ctx, "Acme".to_string(), CLIFF as i64).unwrap();
    order.amount = 1_000_001;
    assert_eq!(settle_claim(&mut store, &order, Ok(())), Err(SettleError::Superseded));
    order.amount = 1_000_000;
    order.schedule = wallet();
    assert_eq!(settle_claim(&mut store, &order, Ok(())), Err(SettleError::Superseded));
    assert_eq!(store.employee_account(&ctx.employee_account).unwrap().total_withdrawn, 0);
}

#[test]
fn claims_on_different_schedules_do_not_touch_each_other() {
    let mut store = acme();
    let other = enrollment("Acme", wallet());
    assert_eq!(create_employee_account(&mut store, &other, 0, 100, 500, 0), Ok(()));
    let first = claim_tokens(&store, &claim("Acme", employee()), "Acme".to_string(), CLIFF as i64)
        .unwrap();
    let second = claim_tokens(&store, &claim("Acme", wallet()), "Acme".to_string(), 50).unwrap();
    assert_eq!(second.amount, 250);
    assert_eq!(settle_claim(&mut store, &first, Ok(())), Ok(82_191));
    assert_eq!(settle_claim(&mut store, &second, Ok(())), Ok(250));
    assert_eq!(store.employee_account(&other.employee_account).unwrap().total_withdrawn, 250);
}

#[test]
fn claim_under_another_name_is_a_mismatch() {
    let store = acme();
    let ctx = claim("Acme", employee());
    assert_eq!(
        claim_tokens(&store, &ctx, "Apex".to_string(), END as i64),
        Err(ErrorCode::AddressMismatch)
    );
}

#[test]
fn claim_by_another_caller_is_refused() {
    let store = acme();
    let mut ctx = claim("Acme", employee());
    ctx.beneficiary = wallet();
    assert_eq!(
        claim_tokens(&store, &ctx, "Acme".to_string(), END as i64),
        Err(ErrorCode::Unauthorized)
    );
    assert_eq!(
        claim_tokens(&store, &ctx, "Acme".to_string(), START as i64),
        Err(ErrorCode::Unauthorized)
    );
}

#[test]
fn claim_with_wrong_mint_or_treasury_is_a_mismatch() {
    let store = acme();
    let mut ctx = claim("Acme", employee());
    ctx.mint = wallet();
    assert_eq!(
        claim_tokens(&store, &ctx, "Acme".to_string(), END as i64),
        Err(ErrorCode::AddressMismatch)
    );
    let mut ctx = claim("Acme", employee());
    ctx.treasury_token_account = wallet();
    assert_eq!(
        claim_tokens(&store, &ctx, "Acme".to_string(), END as i64),
        Err(ErrorCode::AddressMismatch)
    );
}

#[test]
fn claim_on_records_that_are_not_kept_is_a_mismatch() {
    let store = acme();
    let ctx = claim("Acme", wallet());
    assert_eq!(
        claim_tokens(&store, &ctx, "Acme".to_string(), END as i64),
        Err(ErrorCode::AddressMismatch)
    );
    let empty = Registry::new();
    assert_eq!(
        claim_tokens(&empty, &claim("Acme", employee()), "Acme".to_string(), END as i64),
        Err(ErrorCode::AddressMismatch)
    );
}

fn records() -> (ClaimTokens, VestingAccount, EmployeeAccount) {
    let ctx = ClaimTokens {
        beneficiary: employee(),
        employee_account: Address::new([10u8; 32]),
        vesting_account: Address::new([11u8; 32]),
        mint: mint(),
        treasury_token_account: Address::new([12u8; 32]),
        employee_token_account: wallet(),
    };
    let program = VestingAccount {
        owner: owner(),
        mint: mint(),
        treasury_token_account: ctx.treasury_token_account,
        company_name: "Acme".to_string(),
        treasury_bump: 254,
        bump: 255,
    };
    let schedule = EmployeeAccount {
        beneficiary: employee(),
        start_time: START,
        end_time: END,
        cliff_time: CLIFF,
        vesting_account: ctx.vesting_account,
        total_amount: 1_000_000,
        total_withdrawn: 0,
        bump: 253,
    };
    (ctx, program, schedule)
}

#[test]
fn claim_check_passes_when_everything_agrees() {
    let (ctx, program, schedule) = records();
    assert_eq!(
        check_claim(
            &ctx,
            &program,
            &schedule,
            Some(ctx.vesting_account),
            Some(ctx.treasury_token_account),
            Some(ctx.employee_account)
        ),
        Ok(())
    );
}

#[test]
fn claim_check_refuses_an_address_that_is_not_the_derived_one() {
    let (ctx, program, schedule) = records();
    let p = Some(ctx.vesting_account);
    let t = Some(ctx.treasury_token_account);
    let s = Some(ctx.employee_account);
    assert_eq!(check_claim(&ctx, &program, &schedule, None, t, s), Err(ErrorCode::AddressMismatch));
    assert_eq!(check_claim(&ctx, &program, &schedule, p, None, s), Err(ErrorCode::AddressMismatch));
    assert_eq!(check_claim(&ctx, &program, &schedule, p, t, None), Err(ErrorCode::AddressMismatch));
    assert_eq!(check_claim(&ctx, &program, &schedule, t, p, s), Err(ErrorCode::AddressMismatch));
    assert_eq!(check_claim(&ctx, &program, &schedule, p, t, p), Err(ErrorCode::AddressMismatch));
}

#[test]
fn claim_check_refuses_a_caller_who_is_not_the_beneficiary() {
    let (ctx, program, mut schedule) = records();
    schedule.beneficiary = wallet();
    assert_eq!(
        check_claim(
            &ctx,
            &program,
            &schedule,
            Some(ctx.vesting_account),
            Some(ctx.treasury_token_account),
            Some(ctx.employee_account)
        ),
        Err(ErrorCode::Unauthorized)
    );
    assert_eq!(
        check_claim(&ctx, &program, &schedule, None, None, None),
        Err(ErrorCode::AddressMismatch)
    );
}

#[test]
fn claim_check_refuses_records_that_do_not_belong_together() {
    let (ctx, program, schedule) = records();
    let p = Some(ctx.vesting_account);
    let t = Some(ctx.treasury_token_account);
    let s = Some(ctx.employee_account);
    let mut unlinked = schedule;
    unlinked.vesting_account = wallet();
    assert_eq!(check_claim(&ctx, &program, &unlinked, p, t, s), Err(ErrorCode::AddressMismatch));
    let mut other_mint = program.clone();
    other_mint.mint = wallet();
    assert_eq!(check_claim(&ctx, &other_mint, &schedule, p, t, s), Err(ErrorCode::AddressMismatch));
    let mut other_treasury = program.clone();
    other_treasury.treasury_token_account = wallet();
    assert_eq!(
        check_claim(&ctx, &other_treasury, &schedule, p, t, s),
        Err(ErrorCode::AddressMismatch)
    );
}

#[test]
fn registration_check_hands_out_both_salts() {
    let ctx = CreateVestingAccount {
        signer: owner(),
        vesting_account: Address::new([11u8; 32]),
        mint: mint(),
        treasury_token_account: Address::new([12u8; 32]),
    };
    let p = Some((ctx.vesting_account, 250u8));
    let t = Some((ctx.treasury_token_account, 251u8));
    assert_eq!(check_registration(&ctx, p, t), Ok((250, 251)));
    assert_eq!(check_registration(&ctx, None, t), Err(ErrorCode::AddressMismatch));
    assert_eq!(check_registration(&ctx, p, None), Err(ErrorCode::AddressMismatch));
    assert_eq!(check_registration(&ctx, t, p), Err(ErrorCode::AddressMismatch));
}

#[test]
fn enrollment_check_puts_the_address_before_the_owner() {
    let (_, program, _) = records();
    let ctx = CreateEmployeeAccount {
        owner: owner(),
        beneficiary: employee(),
        vesting_account: Address::new([11u8; 32]),
        employee_account: Address::new([10u8; 32]),
    };
    assert_eq!(check_enrollment(&ctx, &program, Some((ctx.employee_account, 249))), Ok(249));
    assert_eq!(check_enrollment(&ctx, &program, None), Err(ErrorCode::AddressMismatch));
    let mut stranger = ctx;
    stranger.owner = wallet();
    assert_eq!(
        check_enrollment(&stranger, &program, Some((ctx.employee_account, 249))),
        Err(ErrorCode::Unauthorized)
    );
    assert_eq!(
        check_enrollment(&stranger, &program, Some((wallet(), 249))),
        Err(ErrorCode::AddressMismatch)
    );
}
