use vstd::bytes::spec_u64_from_le_bytes;
use vstd::prelude::*;

use crate::address::Address;
use crate::error::HookError;
use crate::ledger::{ledger_accepts, ledger_step, LedgerOp, User};
use crate::vault::Vault;

verus! {

/// The token-2022 program, the only handler whose transfers bind a deposit
/// or a withdraw.
pub const TOKEN_2022_PROGRAM_ID: [u8; 32] = [
    6, 221, 246, 225, 238, 117, 143, 222, 24, 66, 93, 188, 228, 108, 205, 218, 182, 26, 252, 77,
    131, 185, 13, 39, 254, 189, 249, 40, 216, 161, 139, 252,
];

/// The first data byte of a token-2022 `TransferChecked` instruction.
pub const TRANSFER_CHECKED_OPCODE: u8 = 12;

/// In a `TransferChecked` instruction, the position of the source account's
/// owner or delegate among its accounts.
pub const AUTHORITY_ACCOUNT_INDEX: usize = 3;

/// One operation of an atomic batch, as the batch's log shows it.
#[derive(Clone, Debug)]
pub struct Operation {
    pub program_id: Address,
    pub accounts: Vec<Address>,
    pub data: Vec<u8>,
}

/// The ordered log of the enclosing batch, and the position of the operation
/// that is running.
#[derive(Clone, Debug)]
pub struct InstructionLog {
    pub operations: Vec<Operation>,
    pub current_index: usize,
}

/// What a would-be checked transfer says: the amount it moves where it is a
/// token-2022 `TransferChecked` authorized by `authority`, else why it is not.
pub open spec fn transfer_amount_of(op: Operation, authority: Seq<u8>) -> Result<u64, HookError> {
    if op.program_id@ != TOKEN_2022_PROGRAM_ID@ {
        Err(HookError::UnexpectedProgram)
    } else if op.data@.len() < 9 || op.data@[0] != TRANSFER_CHECKED_OPCODE {
        Err(HookError::UnexpectedOpcode)
    } else if op.accounts@.len() <= AUTHORITY_ACCOUNT_INDEX
        || op.accounts@[AUTHORITY_ACCOUNT_INDEX as int]@ != authority {
        Err(HookError::SignerMismatch)
    } else {
        Ok(spec_u64_from_le_bytes(op.data@.subrange(1, 9)))
    }
}

/// The amount that a deposit by `user` credits: that of the transfer just
/// before the current operation.
pub open spec fn deposit_amount_of(log: InstructionLog, user: Seq<u8>) -> Result<u64, HookError> {
    if log.current_index == 0 || log.current_index - 1 >= log.operations@.len() {
        Err(HookError::AdjacentOperationNotFound)
    } else {
        transfer_amount_of(log.operations@[log.current_index - 1], user)
    }
}

/// Whether a withdraw of `amount` by `user` is bound to the transfer just
/// after the current operation.
pub open spec fn withdraw_binding_of(log: InstructionLog, user: Seq<u8>, amount: u64) -> Result<
    (),
    HookError,
> {
    if log.current_index + 1 >= log.operations@.len() {
        Err(HookError::AdjacentOperationNotFound)
    } else {
        match transfer_amount_of(log.operations@[log.current_index + 1], user) {
            Err(e) => Err(e),
            Ok(a) => if a == amount {
                Ok(())
            } else {
                Err(HookError::AmountMismatch)
            },
        }
    }
}

/// Checks that `op` is a token-2022 checked transfer authorized by
/// `authority`, and reads the amount it moves.
pub fn transfer_amount(op: &Operation, authority: &Address) -> (r: Result<u64, HookError>)
    ensures
        r == transfer_amount_of(*op, authority@),
{
    let token_program = Address::new(TOKEN_2022_PROGRAM_ID);
    if !(op.program_id == token_program) {
        return Err(HookError::UnexpectedProgram);
    }
    if op.data.len() < 9 || op.data[0] != TRANSFER_CHECKED_OPCODE {
        return Err(HookError::UnexpectedOpcode);
    }
    if op.accounts.len() <= AUTHORITY_ACCOUNT_INDEX || !(op.accounts[AUTHORITY_ACCOUNT_INDEX]
        == *authority) {
        return Err(HookError::SignerMismatch);
    }
    let amount_bytes = vstd::slice::slice_subrange(op.data.as_slice(), 1, 9);
    Ok(vstd::bytes::u64_from_le_bytes(amount_bytes))
}

/// A deposit request: the depositing signer, its authorization record, and
/// the log of the batch.
#[derive(Clone, Debug)]
pub struct Deposit {
    pub user: Address,
    pub user_state: User,
    pub instructions: InstructionLog,
}

impl Deposit {
    /// Credits the user with the amount of the transfer just before this
    /// request.
    pub fn deposit(&mut self) -> (r: Result<(), HookError>)
        ensures
            final(self).user == old(self).user,
            final(self).instructions == old(self).instructions,
            final(self).user_state.bump == old(self).user_state.bump,
            match deposit_amount_of(old(self).instructions, old(self).user@) {
                Err(e) => r == Err::<(), HookError>(e) && final(self).user_state
                    == old(self).user_state,
                Ok(a) => final(self).user_state.balance == ledger_step(
                    old(self).user_state.balance as int,
                    LedgerOp::Credit(a),
                ) && (r is Ok <==> ledger_accepts(
                    old(self).user_state.balance as int,
                    LedgerOp::Credit(a),
                )) && (r is Err ==> r == Err::<(), HookError>(HookError::BalanceOverflow)),
            },
    {
        let amount = match self.check_transfer_instruction() {
            Ok(a) => a,
            Err(e) => return Err(e),
        };
        self.user_state.credit(amount)
    }

    /// Binds this request to the operation just before it: a checked transfer
    /// of the asset by the depositing user, whose amount it returns.
    pub fn check_transfer_instruction(&self) -> (r: Result<u64, HookError>)
        ensures
            r == deposit_amount_of(self.instructions, self.user@),
    {
        let log = &self.instructions;
        if log.current_index == 0 || log.current_index - 1 >= log.operations.len() {
            return Err(HookError::AdjacentOperationNotFound);
        }
        transfer_amount(&log.operations[log.current_index - 1], &self.user)
    }
}

/// A withdraw request: the withdrawing signer, the vault, the signer's
/// authorization record, and the log of the batch.
#[derive(Clone, Debug)]
pub struct Withdraw {
    pub user: Address,
    pub vault: Vault,
    pub user_account: User,
    pub instructions: InstructionLog,
}

impl Withdraw {
    /// Debits `amount` from the user, once the operation just after this
    /// request is seen to transfer exactly that amount on the user's
    /// authority. On success the vault then lets the user move `amount` out
    /// of the holding account.
    pub fn withdraw(&mut self, amount: u64) -> (r: Result<(), HookError>)
        ensures
            final(self).user == old(self).user,
            final(self).vault == old(self).vault,
            final(self).instructions == old(self).instructions,
            final(self).user_account.bump == old(self).user_account.bump,
            match withdraw_binding_of(old(self).instructions, old(self).user@, amount) {
                Err(e) => r == Err::<(), HookError>(e) && final(self).user_account
                    == old(self).user_account,
                Ok(_) => final(self).user_account.balance == ledger_step(
                    old(self).user_account.balance as int,
                    LedgerOp::Debit(amount),
                ) && (r is Ok <==> ledger_accepts(
                    old(self).user_account.balance as int,
                    LedgerOp::Debit(amount),
                )) && (r is Err ==> r == Err::<(), HookError>(HookError::InsufficientBalance)),
            },
    {
        match self.check_transfer_instruction(amount) {
            Ok(()) => {},
            Err(e) => return Err(e),
        }
        self.user_account.debit(amount)
    }

    /// Binds this request to the operation just after it: a checked transfer
    /// of exactly `amount` of the asset on the withdrawing user's authority.
    pub fn check_transfer_instruction(&self, amount: u64) -> (r: Result<(), HookError>)
        ensures
            r == withdraw_binding_of(self.instructions, self.user@, amount),
    {
        let log = &self.instructions;
        if log.current_index >= log.operations.len() || log.current_index + 1
            >= log.operations.len() {
            return Err(HookError::AdjacentOperationNotFound);
        }
        match transfer_amount(&log.operations[log.current_index + 1], &self.user) {
            Err(e) => Err(e),
            Ok(a) => if a == amount {
                Ok(())
            } else {
                Err(HookError::AmountMismatch)
            },
        }
    }
}

} // verus!
