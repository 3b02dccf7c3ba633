use soflex::error::ErrorCode;
use soflex::ledger::{Borrowing, LedgerOp};

#[test]
fn initialize_starts_at_zero() {
    let l = Borrowing::initialize();
    assert_eq!(l.total_borrowed, 0);
    assert_eq!(l.total_lent, 0);
}

#[test]
fn borrow_and_lend_accumulate_independently() {
    let mut l = Borrowing::initialize();
    assert_eq!(l.borrow(100), Ok(()));
    assert_eq!(l.borrow(23), Ok(()));
    assert_eq!(l.lend(7), Ok(()));
    assert_eq!(l.total_borrowed, 123);
    assert_eq!(l.total_lent, 7);
}

#[test]
fn borrow_overflow_fails_and_keeps_state() {
    let mut l = Borrowing::initialize();
    assert_eq!(l.borrow(u64::MAX), Ok(()));
    assert_eq!(l.borrow(1), Err(ErrorCode::Overflow));
    assert_eq!(l.total_borrowed, u64::MAX);
    assert_eq!(l.total_lent, 0);
}

#[test]
fn lend_overflow_fails_and_keeps_state() {
    let mut l = Borrowing::initialize();
    assert_eq!(l.lend(u64::MAX - 1), Ok(()));
    assert_eq!(l.lend(2), Err(ErrorCode::Overflow));
    assert_eq!(l.lend(1), Ok(()));
    assert_eq!(l.total_lent, u64::MAX);
    assert_eq!(l.total_borrowed, 0);
}

#[test]
fn apply_routes_requests() {
    let mut l = Borrowing::initialize();
    assert_eq!(l.apply(LedgerOp::Borrow(5)), Ok(()));
    assert_eq!(l.apply(LedgerOp::Lend(9)), Ok(()));
    assert_eq!(l, Borrowing { total_borrowed: 5, total_lent: 9 });
}

#[test]
fn accumulators_never_decrease_over_a_sequence() {
    let mut l = Borrowing::initialize();
    let ops = [
        LedgerOp::Borrow(10),
        LedgerOp::Lend(u64::MAX),
        LedgerOp::Lend(1),
        LedgerOp::Borrow(u64::MAX),
        LedgerOp::Borrow(0),
    ];
    for op in ops {
        let before = l;
        let _ = l.apply(op);
        assert!(l.total_borrowed >= before.total_borrowed);
        assert!(l.total_lent >= before.total_lent);
    }
    assert_eq!(l.total_borrowed, 10);
    assert_eq!(l.total_lent, u64::MAX);
}
