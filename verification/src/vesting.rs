//! The vesting arithmetic and the decision a claim rests on.

use crate::error::ErrorCode;
use crate::state::EmployeeAccount;
use vstd::prelude::*;

verus! {

/// Seconds of the schedule that have passed at `now`; none before the start.
pub open spec fn elapsed(start: int, now: int) -> int {
    if now > start {
        now - start
    } else {
        0
    }
}

/// The units vested at `now`: everything from the end on, nothing up to the
/// start, and in between the linear share, rounded down.
pub open spec fn vested(total: int, start: int, end: int, now: int) -> int {
    if now >= end {
        total
    } else if now <= start {
        0
    } else {
        (total * (now - start)) / (end - start)
    }
}

/// Where a schedule stands at a given time.
#[derive(Clone, Copy, Debug, PartialEq, Eq, Structural)]
pub enum Phase {
    /// Before the cliff: nothing can be claimed.
    Locked,
    /// From the cliff up to the end: the vested share can be claimed.
    Vesting,
    /// From the end on: everything has vested.
    FullyVested,
}

impl EmployeeAccount {
    /// The times are in order and the schedule has a length.
    pub open spec fn well_ordered(&self) -> bool {
        &&& self.start_time <= self.cliff_time
        &&& self.cliff_time <= self.end_time
        &&& self.start_time < self.end_time
    }

    /// No more has been paid out than was granted.
    pub open spec fn conserved(&self) -> bool {
        self.total_withdrawn <= self.total_amount
    }

    /// The units vested at `now` under this schedule.
    pub open spec fn vested_at(&self, now: int) -> int {
        vested(self.total_amount as int, self.start_time as int, self.end_time as int, now)
    }

    /// The product of the linear share does not fit an amount. Asked only
    /// before the end, where the share is computed.
    pub open spec fn overflows_at(&self, now: int) -> bool {
        now < self.end_time && self.total_amount * elapsed(self.start_time as int, now) > u64::MAX
    }

    /// What is vested at `now` and not yet paid out.
    pub open spec fn claimable_at(&self, now: int) -> int {
        if self.vested_at(now) > self.total_withdrawn {
            self.vested_at(now) - self.total_withdrawn
        } else {
            0
        }
    }

    /// The vested amount, or the refusal that comes first.
    pub open spec fn vesting_outcome(&self, now: int) -> Result<u64, ErrorCode> {
        if self.end_time == self.start_time {
            Err(ErrorCode::InvalidVestingPeriod)
        } else if self.overflows_at(now) {
            Err(ErrorCode::CalculationOverflow)
        } else {
            Ok(self.vested_at(now) as u64)
        }
    }

    /// The amount a claim at `now` pays, or the refusal that comes first.
    pub open spec fn claim_outcome(&self, now: int) -> Result<u64, ErrorCode> {
        if now < self.cliff_time {
            Err(ErrorCode::ClaimNotAvailableYet)
        } else if self.vesting_outcome(now) is Err {
            self.vesting_outcome(now)
        } else if self.claimable_at(now) == 0 {
            Err(ErrorCode::NothingToClaim)
        } else {
            Ok(self.claimable_at(now) as u64)
        }
    }

    /// Where the schedule stands at `now`.
    pub open spec fn phase_at(&self, now: int) -> Phase {
        if now < self.cliff_time {
            Phase::Locked
        } else if now < self.end_time {
            Phase::Vesting
        } else {
            Phase::FullyVested
        }
    }

    /// Everything granted has been paid out.
    pub open spec fn fully_claimed(&self) -> bool {
        self.total_withdrawn == self.total_amount
    }

    /// Where the schedule stands at `now`.
    pub fn phase(&self, now: i64) -> (r: Phase)
        ensures
            r == self.phase_at(now as int),
    {
        if now < 0 || (now as u64) < self.cliff_time {
            Phase::Locked
        } else if (now as u64) < self.end_time {
            Phase::Vesting
        } else {
            Phase::FullyVested
        }
    }

    /// Whether everything granted has been paid out.
    pub fn is_fully_claimed(&self) -> (r: bool)
        ensures
            r == self.fully_claimed(),
    {
        self.total_withdrawn == self.total_amount
    }

    /// Books a payment of `amount` units, where what is left of the grant
    /// covers it; otherwise nothing is changed.
    pub fn book_payment(&mut self, amount: u64) -> (booked: bool)
        ensures
            booked == (old(self).total_withdrawn + amount <= old(self).total_amount),
            booked ==> *final(self) == (EmployeeAccount {
                total_withdrawn: (old(self).total_withdrawn + amount) as u64,
                ..*old(self)
            }),
            !booked ==> *final(self) == *old(self),
    {
        if self.total_withdrawn > self.total_amount || amount > self.total_amount
            - self.total_withdrawn {
            return false;
        }
        self.total_withdrawn = self.total_withdrawn + amount;
        true
    }

    /// The units vested at `now`.
    pub fn vested_amount(&self, now: i64) -> (r: Result<u64, ErrorCode>)
        ensures
            r == self.vesting_outcome(now as int),
            r is Ok ==> r->Ok_0 <= self.total_amount,
    {
        if self.end_time == self.start_time {
            return Err(ErrorCode::InvalidVestingPeriod);
        }
        if now >= 0 && now as u64 >= self.end_time {
            return Ok(self.total_amount);
        }
        if now < 0 || now as u64 <= self.start_time {
            return Ok(0);
        }
        let passed: u64 = now as u64 - self.start_time;
        let duration: u64 = self.end_time - self.start_time;
        let total: u64 = self.total_amount;
        assert(total as int * passed as int <= u64::MAX as int * u64::MAX as int) by (nonlinear_arith)
            requires
                0 <= total <= u64::MAX,
                0 <= passed <= u64::MAX,
        ;
        let product: u128 = total as u128 * passed as u128;
        if product > u64::MAX as u128 {
            return Err(ErrorCode::CalculationOverflow);
        }
        let share: u128 = product / duration as u128;
        proof {
            lemma_share_bounded(total as int, passed as int, duration as int);
        }
        Ok(share as u64)
    }

    /// What a claim at `now` would pay.
    pub fn claimable_amount(&self, now: i64) -> (r: Result<u64, ErrorCode>)
        ensures
            r == self.claim_outcome(now as int),
    {
        if now < 0 || (now as u64) < self.cliff_time {
            return Err(ErrorCode::ClaimNotAvailableYet);
        }
        match self.vested_amount(now) {
            Err(e) => Err(e),
            Ok(vested_now) => {
                if vested_now <= self.total_withdrawn {
                    Err(ErrorCode::NothingToClaim)
                } else {
                    Ok(vested_now - self.total_withdrawn)
                }
            },
        }
    }
}

/// Strictly inside the schedule the linear share is at most the total.
pub proof fn lemma_share_bounded(total: int, passed: int, duration: int)
    requires
        0 <= total,
        0 <= passed < duration,
    ensures
        0 <= (total * passed) / duration <= total,
{
    assert(0 <= total * passed <= total * duration) by (nonlinear_arith)
        requires
            0 <= total,
            0 <= passed < duration,
    ;
    assert((total * passed) / duration <= total) by (nonlinear_arith)
        requires
            0 < duration,
            total * passed <= total * duration,
    ;
    assert(0 <= (total * passed) / duration) by (nonlinear_arith)
        requires
            0 < duration,
            0 <= total * passed,
    ;
}

/// The vested amount never goes down as time goes on.
pub proof fn lemma_vested_monotonic(total: int, start: int, end: int, earlier: int, later: int)
    requires
        0 <= total,
        earlier <= later,
    ensures
        vested(total, start, end, earlier) <= vested(total, start, end, later),
{
    if later < end && start < earlier {
        let duration = end - start;
        assert(total * (earlier - start) <= total * (later - start)) by (nonlinear_arith)
            requires
                0 <= total,
                earlier <= later,
        ;
        assert((total * (earlier - start)) / duration <= (total * (later - start)) / duration)
            by (nonlinear_arith)
            requires
                0 < duration,
                total * (earlier - start) <= total * (later - start),
        ;
    } else if later < end && start < later {
        lemma_share_bounded(total, later - start, end - start);
    } else if start < earlier && earlier < end {
        lemma_share_bounded(total, earlier - start, end - start);
    }
}

/// Everything has vested at the end of a schedule, and nothing at the start
/// of one that has a length.
pub proof fn lemma_vested_at_bounds(total: int, start: int, end: int)
    ensures
        vested(total, start, end, end) == total,
        start < end ==> vested(total, start, end, start) == 0,
{
}

/// At every time the vested amount lies between nothing and the total.
pub proof fn lemma_vested_range(total: int, start: int, end: int, now: int)
    requires
        0 <= total,
    ensures
        0 <= vested(total, start, end, now) <= total,
{
    if start < now && now < end {
        lemma_share_bounded(total, now - start, end - start);
    }
}

/// A claim that succeeds pays exactly what has vested and was not yet paid
/// out, and what was paid out afterwards is still no more than the grant.
pub proof fn lemma_claim_conserves(account: EmployeeAccount, now: int)
    requires
        account.claim_outcome(now) is Ok,
    ensures
        account.claim_outcome(now)->Ok_0 > 0,
        account.claim_outcome(now)->Ok_0 + account.total_withdrawn == account.vested_at(now),
        account.total_withdrawn + account.claim_outcome(now)->Ok_0 <= account.total_amount,
{
    lemma_vested_range(
        account.total_amount as int,
        account.start_time as int,
        account.end_time as int,
        now,
    );
}

/// Before the cliff every claim is refused as not yet available, whatever
/// the amounts are.
pub proof fn lemma_no_claim_before_cliff(account: EmployeeAccount, now: int)
    requires
        now < account.cliff_time,
    ensures
        account.claim_outcome(now) == Err::<u64, ErrorCode>(ErrorCode::ClaimNotAvailableYet),
{
}

/// From the end on, a claim that succeeds pays all that is left of the grant.
pub proof fn lemma_full_release_at_maturity(account: EmployeeAccount, now: int)
    requires
        now >= account.end_time,
        account.claim_outcome(now) is Ok,
    ensures
        account.claim_outcome(now)->Ok_0 == account.total_amount - account.total_withdrawn,
{
}

/// Once everything granted has been paid out, no claim succeeds, and from
/// the end of a schedule on it is refused for having nothing to claim.
pub proof fn lemma_fully_claimed_is_final(account: EmployeeAccount, now: int)
    requires
        account.fully_claimed(),
    ensures
        account.claim_outcome(now) is Err,
        now >= account.end_time && now >= account.cliff_time && account.start_time
            != account.end_time ==> account.claim_outcome(now) == Err::<u64, ErrorCode>(
            ErrorCode::NothingToClaim,
        ),
{
    lemma_vested_range(
        account.total_amount as int,
        account.start_time as int,
        account.end_time as int,
        now,
    );
}

} // verus!
