use vstd::prelude::*;

use crate::error::ErrorCode;

verus! {

/// Cumulative borrow and lend totals of one account.
#[derive(Debug, Clone, Copy, PartialEq, Eq, Structural)]
pub struct Borrowing {
    pub total_borrowed: u64,
    pub total_lent: u64,
}

/// One request against a borrow ledger.
#[derive(Debug, Clone, Copy, PartialEq, Eq, Structural)]
pub enum LedgerOp {
    Borrow(u64),
    Lend(u64),
}

impl Borrowing {
    /// Whether `op` fits: the accumulator it adds to stays within 64 bits.
    pub open spec fn fits(&self, op: LedgerOp) -> bool {
        match op {
            LedgerOp::Borrow(amount) => self.total_borrowed + amount <= u64::MAX,
            LedgerOp::Lend(amount) => self.total_lent + amount <= u64::MAX,
        }
    }

    /// The ledger after `op`: the amount added to its accumulator when it
    /// fits, the ledger unchanged when it does not.
    pub open spec fn after(&self, op: LedgerOp) -> Borrowing {
        if !self.fits(op) {
            *self
        } else {
            match op {
                LedgerOp::Borrow(amount) => Borrowing {
                    total_borrowed: (self.total_borrowed + amount) as u64,
                    ..*self
                },
                LedgerOp::Lend(amount) => Borrowing {
                    total_lent: (self.total_lent + amount) as u64,
                    ..*self
                },
            }
        }
    }

    /// A ledger with both accumulators at zero.
    pub fn initialize() -> (r: Borrowing)
        ensures
            r.total_borrowed == 0,
            r.total_lent == 0,
    {
        Borrowing { total_borrowed: 0, total_lent: 0 }
    }

    /// Adds `amount` to the borrowed total, or fails with `Overflow` when the
    /// sum does not fit in 64 bits, leaving the ledger unchanged.
    pub fn borrow(&mut self, amount: u64) -> (r: Result<(), ErrorCode>)
        ensures
            r is Ok <==> old(self).total_borrowed + amount <= u64::MAX,
            r is Ok ==> final(self).total_borrowed == old(self).total_borrowed + amount,
            r is Ok ==> final(self).total_lent == old(self).total_lent,
            r is Err ==> r == Err::<(), ErrorCode>(ErrorCode::Overflow),
            r is Err ==> *final(self) == *old(self),
    {
        match self.total_borrowed.checked_add(amount) {
            Some(sum) => {
                self.total_borrowed = sum;
                Ok(())
            },
            None => Err(ErrorCode::Overflow),
        }
    }

    /// Adds `amount` to the lent total, or fails with `Overflow` when the sum
    /// does not fit in 64 bits, leaving the ledger unchanged.
    pub fn lend(&mut self, amount: u64) -> (r: Result<(), ErrorCode>)
        ensures
            r is Ok <==> old(self).total_lent + amount <= u64::MAX,
            r is Ok ==> final(self).total_lent == old(self).total_lent + amount,
            r is Ok ==> final(self).total_borrowed == old(self).total_borrowed,
            r is Err ==> r == Err::<(), ErrorCode>(ErrorCode::Overflow),
            r is Err ==> *final(self) == *old(self),
    {
        match self.total_lent.checked_add(amount) {
            Some(sum) => {
                self.total_lent = sum;
                Ok(())
            },
            None => Err(ErrorCode::Overflow),
        }
    }

    /// Routes `op` to `borrow` or `lend`.
    pub fn apply(&mut self, op: LedgerOp) -> (r: Result<(), ErrorCode>)
        ensures
            *final(self) == old(self).after(op),
            r is Ok <==> old(self).fits(op),
            r is Err ==> r == Err::<(), ErrorCode>(ErrorCode::Overflow),
    {
        match op {
            LedgerOp::Borrow(amount) => self.borrow(amount),
            LedgerOp::Lend(amount) => self.lend(amount),
        }
    }
}

/// Over any sequence of requests, both accumulators never decrease, and each
/// request either adds its full amount or, when the sum would not fit, leaves
/// the ledger unchanged: nothing wraps.
pub proof fn lemma_accumulators_never_decrease(trace: Seq<Borrowing>, ops: Seq<LedgerOp>)
    requires
        trace.len() == ops.len() + 1,
        forall|k: int| 0 <= k < ops.len() ==> trace[k + 1] == (#[trigger] trace[k]).after(ops[k]),
    ensures
        forall|i: int, j: int|
            #![trigger trace[i], trace[j]]
            0 <= i <= j < trace.len() ==> {
                &&& trace[i].total_borrowed <= trace[j].total_borrowed
                &&& trace[i].total_lent <= trace[j].total_lent
            },
        forall|k: int|
            0 <= k < ops.len() ==> match ops[k] {
                LedgerOp::Borrow(amount) => (#[trigger] trace[k]).fits(ops[k])
                    ==> trace[k + 1].total_borrowed == trace[k].total_borrowed + amount,
                LedgerOp::Lend(amount) => trace[k].fits(ops[k])
                    ==> trace[k + 1].total_lent == trace[k].total_lent + amount,
            },
    decreases ops.len(),
{
    if ops.len() > 0 {
        let n = ops.len() - 1;
        let prefix = trace.drop_last();
        assert forall|k: int| 0 <= k < n implies prefix[k + 1] == (#[trigger] prefix[k]).after(
            ops.drop_last()[k],
        ) by {
            assert(trace[k + 1] == trace[k].after(ops[k]));
        }
        lemma_accumulators_never_decrease(prefix, ops.drop_last());
        assert(trace[n + 1] == trace[n].after(ops[n]));
        assert forall|i: int, j: int|
            #![trigger trace[i], trace[j]]
            0 <= i <= j < trace.len() implies {
            &&& trace[i].total_borrowed <= trace[j].total_borrowed
            &&& trace[i].total_lent <= trace[j].total_lent
        } by {
            if j == trace.len() - 1 && i < j {
                assert(prefix[i] == trace[i]);
                assert(prefix[n] == trace[n]);
            } else if i < j {
                assert(prefix[i] == trace[i]);
                assert(prefix[j] == trace[j]);
            }
        }
        assert forall|k: int| 0 <= k < ops.len() implies match ops[k] {
            LedgerOp::Borrow(amount) => (#[trigger] trace[k]).fits(ops[k])
                ==> trace[k + 1].total_borrowed == trace[k].total_borrowed + amount,
            LedgerOp::Lend(amount) => trace[k].fits(ops[k])
                ==> trace[k + 1].total_lent == trace[k].total_lent + amount,
        } by {
            assert(trace[k + 1] == trace[k].after(ops[k]));
        }
    }
}

} // verus!
