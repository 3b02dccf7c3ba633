use vstd::arithmetic::div_mod::{lemma_div_by_multiple, lemma_div_is_ordered};
use vstd::arithmetic::mul::{lemma_mul_inequality, lemma_mul_upper_bound};
use vstd::prelude::*;

use crate::error::ErrorCode;

verus! {

/// A linear vesting schedule for one beneficiary.
///
/// The schedule follows a cliff: nothing can be withdrawn before
/// `start_time + duration` (the unlock time). The amount vested at a time is
/// the linear release `total_amount * elapsed / duration`, truncated and
/// capped at `total_amount`, so from the unlock time on the whole total is
/// available, less what was already withdrawn.
#[derive(Debug, Clone, Copy)]
pub struct VestingSchedule {
    /// Identity of the account that receives the funds.
    pub beneficiary: [u8; 32],
    /// Amount the schedule releases in all; fixed at creation.
    pub total_amount: u64,
    /// Clock reading at creation.
    pub start_time: i64,
    /// Length of the vesting period; strictly positive.
    pub duration: i64,
    /// Amount transferred to the beneficiary so far.
    pub withdrawn_amount: u64,
}

impl VestingSchedule {
    /// The record's invariant: a positive duration, and never more withdrawn
    /// than the total.
    pub open spec fn wf(&self) -> bool {
        &&& self.duration > 0
        &&& self.withdrawn_amount <= self.total_amount
    }

    /// The fields that no operation changes after creation.
    pub open spec fn same_terms(&self, other: &VestingSchedule) -> bool {
        &&& self.beneficiary == other.beneficiary
        &&& self.total_amount == other.total_amount
        &&& self.start_time == other.start_time
        &&& self.duration == other.duration
    }

    /// The first time at which a withdrawal may take place.
    pub open spec fn unlock_time(&self) -> int {
        self.start_time + self.duration
    }

    pub open spec fn is_unlocked(&self, now: int) -> bool {
        now >= self.unlock_time()
    }

    /// Time since the start, or zero before it.
    pub open spec fn elapsed(&self, now: int) -> int {
        if now > self.start_time {
            now - self.start_time
        } else {
            0
        }
    }

    /// Linear release at `now`, truncated, capped at the total.
    pub open spec fn vested_at(&self, now: int) -> int {
        let linear = self.total_amount * self.elapsed(now) / (self.duration as int);
        if linear < self.total_amount {
            linear
        } else {
            self.total_amount as int
        }
    }

    /// What may still be withdrawn at `now`.
    pub open spec fn available_at(&self, now: int) -> int {
        self.vested_at(now) - self.withdrawn_amount
    }

    /// The outcome of a request to withdraw `amount` at `now`, before any
    /// transfer is made.
    pub open spec fn withdraw_check(&self, now: int, amount: int) -> Result<(), ErrorCode> {
        if !self.is_unlocked(now) {
            Err(ErrorCode::VestingNotStarted)
        } else if amount > self.available_at(now) {
            Err(ErrorCode::InsufficientFunds)
        } else {
            Ok(())
        }
    }

    /// Whether the record satisfies its invariant; a record read back from
    /// storage can be tested with this before it is operated on.
    pub fn is_well_formed(&self) -> (r: bool)
        ensures
            r == self.wf(),
    {
        self.duration > 0 && self.withdrawn_amount <= self.total_amount
    }

    /// Starts a schedule at clock reading `now`, with nothing withdrawn.
    /// Fails with `InvalidDuration` unless `duration` is strictly positive.
    pub fn create(
        beneficiary: [u8; 32],
        total_amount: u64,
        duration: i64,
        now: i64,
    ) -> (r: Result<VestingSchedule, ErrorCode>)
        ensures
            r is Err <==> duration <= 0,
            r is Err ==> r == Err::<VestingSchedule, ErrorCode>(ErrorCode::InvalidDuration),
            r matches Ok(s) ==> {
                &&& s.beneficiary == beneficiary
                &&& s.total_amount == total_amount
                &&& s.start_time == now
                &&& s.duration == duration
                &&& s.withdrawn_amount == 0
                &&& s.wf()
            },
    {
        if duration <= 0 {
            return Err(ErrorCode::InvalidDuration);
        }
        Ok(VestingSchedule { beneficiary, total_amount, start_time: now, duration, withdrawn_amount: 0 })
    }

    /// The amount vested at clock reading `now`: the linear release
    /// `total_amount * elapsed / duration`, computed in 128 bits and capped at
    /// `total_amount`.
    pub fn vested_amount(&self, now: i64) -> (r: u64)
        requires
            self.wf(),
        ensures
            r == self.vested_at(now as int),
            r <= self.total_amount,
    {
        let elapsed: u128 = if now > self.start_time {
            (now as i128 - self.start_time as i128) as u128
        } else {
            0
        };
        assert(elapsed == self.elapsed(now as int));
        proof {
            lemma_mul_upper_bound(
                self.total_amount as int,
                0xffff_ffff_ffff_ffff,
                elapsed as int,
                0xffff_ffff_ffff_ffff,
            );
        }
        let linear: u128 = (self.total_amount as u128) * elapsed / (self.duration as u128);
        if linear < self.total_amount as u128 {
            linear as u64
        } else {
            self.total_amount
        }
    }

    /// What may be withdrawn at clock reading `now`: `VestingNotStarted`
    /// before the unlock time, else the vested amount less what was withdrawn.
    pub fn available_amount(&self, now: i64) -> (r: Result<u64, ErrorCode>)
        requires
            self.wf(),
        ensures
            r is Ok <==> self.is_unlocked(now as int),
            r is Err ==> r == Err::<u64, ErrorCode>(ErrorCode::VestingNotStarted),
            r matches Ok(a) ==> a == self.available_at(now as int),
            r matches Ok(a) ==> a <= self.total_amount - self.withdrawn_amount,
    {
        if (now as i128) < self.start_time as i128 + self.duration as i128 {
            return Err(ErrorCode::VestingNotStarted);
        }
        let vested = self.vested_amount(now);
        proof {
            lemma_unlocked_vests_all(*self, now as int);
        }
        Ok(vested - self.withdrawn_amount)
    }

    /// Withdraws `amount` at clock reading `now`.
    ///
    /// Fails with `VestingNotStarted` before the unlock time and with
    /// `InsufficientFunds` when `amount` exceeds what is available; neither
    /// calls `transfer`. Otherwise calls `transfer(beneficiary, amount)` once:
    /// when it reports success the withdrawn amount grows by `amount`, and
    /// when it reports failure the call fails with `TransferFailed` and the
    /// schedule is left as it was.
    pub fn withdraw<F>(&mut self, now: i64, amount: u64, transfer: F) -> (r: Result<(), ErrorCode>) where
        F: FnOnce([u8; 32], u64) -> bool,

        requires
            old(self).wf(),
            transfer.requires((old(self).beneficiary, amount)),
        ensures
            final(self).wf(),
            withdrawal_step(*old(self), now, amount, *final(self)),
            old(self).withdraw_check(now as int, amount as int) matches Err(e) ==> {
                &&& r == Err::<(), ErrorCode>(e)
                &&& *final(self) == *old(self)
            },
            old(self).withdraw_check(now as int, amount as int) is Ok ==> {
                ||| {
                    &&& r == Ok::<(), ErrorCode>(())
                    &&& transfer.ensures((old(self).beneficiary, amount), true)
                    &&& final(self).same_terms(old(self))
                    &&& final(self).withdrawn_amount == old(self).withdrawn_amount + amount
                }
                ||| {
                    &&& r == Err::<(), ErrorCode>(ErrorCode::TransferFailed)
                    &&& transfer.ensures((old(self).beneficiary, amount), false)
                    &&& *final(self) == *old(self)
                }
            },
    {
        let available = match self.available_amount(now) {
            Ok(a) => a,
            Err(e) => return Err(e),
        };
        if amount > available {
            return Err(ErrorCode::InsufficientFunds);
        }
        if !transfer(self.beneficiary, amount) {
            return Err(ErrorCode::TransferFailed);
        }
        self.withdrawn_amount = self.withdrawn_amount + amount;
        Ok(())
    }
}

/// One operation on a schedule: either the record is left as it was, or a
/// permitted withdrawal of `amount` at `now` was recorded.
pub open spec fn withdrawal_step(
    pre: VestingSchedule,
    now: i64,
    amount: u64,
    post: VestingSchedule,
) -> bool {
    ||| post == pre
    ||| {
        &&& pre.withdraw_check(now as int, amount as int) is Ok
        &&& post.same_terms(&pre)
        &&& post.withdrawn_amount == pre.withdrawn_amount + amount
    }
}

/// From the unlock time on, the whole total is vested.
pub proof fn lemma_unlocked_vests_all(s: VestingSchedule, now: int)
    requires
        s.wf(),
        s.is_unlocked(now),
    ensures
        s.vested_at(now) == s.total_amount,
        s.available_at(now) == s.total_amount - s.withdrawn_amount,
{
    let t = s.total_amount as int;
    let d = s.duration as int;
    let e = s.elapsed(now);
    lemma_mul_inequality(d, e, t);
    assert(t * d <= t * e) by (nonlinear_arith)
        requires
            d * t <= e * t,
    ;
    lemma_div_is_ordered(t * d, t * e, d);
    lemma_div_by_multiple(t, d);
}

/// A step keeps the record well formed, keeps its terms, and never lowers the
/// withdrawn amount.
pub proof fn lemma_withdrawal_step(pre: VestingSchedule, now: i64, amount: u64, post: VestingSchedule)
    requires
        pre.wf(),
        withdrawal_step(pre, now, amount, post),
    ensures
        post.wf(),
        post.same_terms(&pre),
        pre.withdrawn_amount <= post.withdrawn_amount,
{
    if post != pre {
        lemma_unlocked_vests_all(pre, now as int);
    }
}

/// Over any sequence of operations on one schedule that starts well formed,
/// the withdrawn amount never decreases, the terms never change, and the
/// record stays well formed.
pub proof fn lemma_withdrawn_never_decreases(
    trace: Seq<VestingSchedule>,
    nows: Seq<i64>,
    amounts: Seq<u64>,
)
    requires
        trace.len() == nows.len() + 1,
        amounts.len() == nows.len(),
        trace[0].wf(),
        forall|k: int|
            0 <= k < nows.len() ==> withdrawal_step(
                #[trigger] trace[k],
                nows[k],
                amounts[k],
                trace[k + 1],
            ),
    ensures
        forall|j: int| 0 <= j < trace.len() ==> (#[trigger] trace[j]).wf(),
        forall|i: int, j: int|
            #![trigger trace[i], trace[j]]
            0 <= i <= j < trace.len() ==> {
                &&& trace[i].withdrawn_amount <= trace[j].withdrawn_amount
                &&& trace[j].same_terms(&trace[i])
            },
    decreases nows.len(),
{
    if nows.len() > 0 {
        let n = nows.len() - 1;
        let prefix = trace.drop_last();
        assert forall|k: int| 0 <= k < n implies withdrawal_step(
            #[trigger] prefix[k],
            nows.drop_last()[k],
            amounts.drop_last()[k],
            prefix[k + 1],
        ) by {
            assert(withdrawal_step(trace[k], nows[k], amounts[k], trace[k + 1]));
        }
        lemma_withdrawn_never_decreases(prefix, nows.drop_last(), amounts.drop_last());
        assert(prefix[n] == trace[n]);
        assert(trace[n].wf());
        assert(withdrawal_step(trace[n], nows[n], amounts[n], trace[n + 1]));
        lemma_withdrawal_step(trace[n], nows[n], amounts[n], trace[n + 1]);
        assert forall|i: int, j: int|
            #![trigger trace[i], trace[j]]
            0 <= i <= j < trace.len() implies {
            &&& trace[i].withdrawn_amount <= trace[j].withdrawn_amount
            &&& trace[j].same_terms(&trace[i])
        } by {
            if j == trace.len() - 1 && i < j {
                assert(prefix[i] == trace[i]);
                assert(prefix[n] == trace[n]);
            } else if i < j {
                assert(prefix[i] == trace[i]);
                assert(prefix[j] == trace[j]);
            }
        }
    }
}

} // verus!
