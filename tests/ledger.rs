use whitelist_transfer_hook::error::HookError;
use whitelist_transfer_hook::ledger::{LedgerOp, User};

#[test]
fn credit_adds_amount() {
    let mut u = User::new(7);
    assert_eq!(u.credit(10_000_000_000), Ok(()));
    assert_eq!(u.balance, 10_000_000_000);
    assert_eq!(u.bump, 7);
}

#[test]
fn credit_rejects_overflow_without_change() {
    let mut u = User { balance: u64::MAX - 1, bump: 1 };
    assert_eq!(u.credit(2), Err(HookError::BalanceOverflow));
    assert_eq!(u.balance, u64::MAX - 1);
    assert_eq!(u.credit(1), Ok(()));
    assert_eq!(u.balance, u64::MAX);
}

#[test]
fn debit_rejects_more_than_balance() {
    let mut u = User { balance: 5, bump: 0 };
    assert_eq!(u.debit(6), Err(HookError::InsufficientBalance));
    assert_eq!(u.balance, 5);
    assert_eq!(u.debit(5), Ok(()));
    assert_eq!(u.balance, 0);
}

#[test]
fn apply_all_never_wraps_near_the_bounds() {
    let mut u = User { balance: u64::MAX - 10, bump: 0 };
    let ops = vec![
        LedgerOp::Credit(20),
        LedgerOp::Credit(10),
        LedgerOp::Credit(1),
        LedgerOp::Debit(u64::MAX),
        LedgerOp::Debit(u64::MAX - 3),
        LedgerOp::Debit(3),
        LedgerOp::Debit(1),
        LedgerOp::Credit(u64::MAX),
    ];
    u.apply_all(&ops);
    assert_eq!(u.balance, u64::MAX);
}

#[test]
fn apply_all_matches_step_by_step() {
    let ops = vec![
        LedgerOp::Credit(100),
        LedgerOp::Debit(30),
        LedgerOp::Debit(100),
        LedgerOp::Credit(u64::MAX),
        LedgerOp::Debit(70),
    ];
    let mut a = User::new(0);
    a.apply_all(&ops);
    let mut b = User::new(0);
    let mut results = Vec::new();
    for op in ops.iter() {
        results.push(b.apply(*op));
    }
    assert_eq!(a.balance, 0);
    assert_eq!(a, b);
    assert_eq!(
        results,
        vec![
            Ok(()),
            Ok(()),
            Err(HookError::InsufficientBalance),
            Err(HookError::BalanceOverflow),
            Ok(())
        ]
    );
}
