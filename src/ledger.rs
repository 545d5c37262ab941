use vstd::prelude::*;

use crate::error::HookError;

verus! {

/// A principal's authorization record: its existence is membership, and it
/// holds the principal's custodial balance.
#[derive(Clone, Copy, Debug, PartialEq, Eq, Structural)]
pub struct User {
    pub balance: u64,
    pub bump: u8,
}

/// One accounting step on a balance.
#[derive(Clone, Copy, Debug, PartialEq, Eq, Structural)]
pub enum LedgerOp {
    Credit(u64),
    Debit(u64),
}

/// The balance after one step, computed over unbounded integers: a step that
/// would leave `0..=u64::MAX` is rejected and leaves the balance as it was.
pub open spec fn ledger_step(balance: int, op: LedgerOp) -> int {
    match op {
        LedgerOp::Credit(a) => if balance + a <= u64::MAX {
            balance + a
        } else {
            balance
        },
        LedgerOp::Debit(a) => if a <= balance {
            balance - a
        } else {
            balance
        },
    }
}

/// Whether a step is accepted on the given balance.
pub open spec fn ledger_accepts(balance: int, op: LedgerOp) -> bool {
    match op {
        LedgerOp::Credit(a) => balance + a <= u64::MAX,
        LedgerOp::Debit(a) => a <= balance,
    }
}

/// The balance after a whole sequence of steps.
pub open spec fn ledger_run(balance: int, ops: Seq<LedgerOp>) -> int
    decreases ops.len(),
{
    if ops.len() == 0 {
        balance
    } else {
        ledger_run(ledger_step(balance, ops[0]), ops.subrange(1, ops.len() as int))
    }
}

/// The sum of the accepted credits minus the sum of the accepted debits.
pub open spec fn ledger_net(balance: int, ops: Seq<LedgerOp>) -> int
    decreases ops.len(),
{
    if ops.len() == 0 {
        0
    } else {
        let op = ops[0];
        let delta = if !ledger_accepts(balance, op) {
            0
        } else {
            match op {
                LedgerOp::Credit(a) => a as int,
                LedgerOp::Debit(a) => -(a as int),
            }
        };
        delta + ledger_net(ledger_step(balance, op), ops.subrange(1, ops.len() as int))
    }
}

impl User {
    pub fn new(bump: u8) -> (r: User)
        ensures
            r.balance == 0,
            r.bump == bump,
    {
        User { balance: 0, bump }
    }

    /// Adds `amount` to the balance; refuses, changing nothing, where the sum
    /// does not fit in a `u64`.
    pub fn credit(&mut self, amount: u64) -> (r: Result<(), HookError>)
        ensures
            final(self).bump == old(self).bump,
            final(self).balance == ledger_step(old(self).balance as int, LedgerOp::Credit(amount)),
            r is Ok <==> ledger_accepts(old(self).balance as int, LedgerOp::Credit(amount)),
            r is Err ==> r == Err::<(), HookError>(HookError::BalanceOverflow),
    {
        match self.balance.checked_add(amount) {
            Some(x) => {
                self.balance = x;
                Ok(())
            },
            None => Err(HookError::BalanceOverflow),
        }
    }

    /// Takes `amount` from the balance; refuses, changing nothing, where the
    /// balance is smaller.
    pub fn debit(&mut self, amount: u64) -> (r: Result<(), HookError>)
        ensures
            final(self).bump == old(self).bump,
            final(self).balance == ledger_step(old(self).balance as int, LedgerOp::Debit(amount)),
            r is Ok <==> ledger_accepts(old(self).balance as int, LedgerOp::Debit(amount)),
            r is Err ==> r == Err::<(), HookError>(HookError::InsufficientBalance),
    {
        if self.balance < amount {
            return Err(HookError::InsufficientBalance);
        }
        self.balance = self.balance - amount;
        Ok(())
    }

    /// Applies one step.
    pub fn apply(&mut self, op: LedgerOp) -> (r: Result<(), HookError>)
        ensures
            final(self).bump == old(self).bump,
            final(self).balance == ledger_step(old(self).balance as int, op),
            r is Ok <==> ledger_accepts(old(self).balance as int, op),
    {
        match op {
            LedgerOp::Credit(a) => self.credit(a),
            LedgerOp::Debit(a) => self.debit(a),
        }
    }

    /// Applies the steps in order; a rejected step changes nothing and the
    /// following ones still apply.
    pub fn apply_all(&mut self, ops: &Vec<LedgerOp>)
        ensures
            final(self).bump == old(self).bump,
            final(self).balance == ledger_run(old(self).balance as int, ops@),
    {
        let mut i: usize = 0;
        assert(ops@.subrange(0, ops@.len() as int) =~= ops@);
        while i < ops.len()
            invariant
                0 <= i <= ops@.len(),
                self.bump == old(self).bump,
                ledger_run(self.balance as int, ops@.subrange(i as int, ops@.len() as int))
                    == ledger_run(old(self).balance as int, ops@),
            decreases ops@.len() - i,
        {
            let ghost rest = ops@.subrange(i as int, ops@.len() as int);
            assert(rest.subrange(1, rest.len() as int) =~= ops@.subrange(
                i + 1,
                ops@.len() as int,
            ));
            let _ = self.apply(ops[i]);
            i = i + 1;
        }
        assert(ops@.subrange(i as int, ops@.len() as int) =~= Seq::<LedgerOp>::empty());
    }
}

/// Whatever the sequence of credits and debits, the balance stays within
/// `0..=u64::MAX` (a step that would leave it is rejected, never wrapped), and
/// it equals the starting balance plus the accepted credits minus the accepted
/// debits.
pub proof fn lemma_ledger_never_wraps(balance: u64, ops: Seq<LedgerOp>)
    ensures
        0 <= ledger_run(balance as int, ops) <= u64::MAX,
        ledger_run(balance as int, ops) == balance as int + ledger_net(balance as int, ops),
    decreases ops.len(),
{
    if ops.len() > 0 {
        let next = ledger_step(balance as int, ops[0]);
        assert(0 <= next <= u64::MAX);
        lemma_ledger_never_wraps(next as u64, ops.subrange(1, ops.len() as int));
    }
}

} // verus!
