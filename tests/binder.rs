use whitelist_transfer_hook::address::Address;
use whitelist_transfer_hook::batch::{
    transfer_amount, Deposit, InstructionLog, Operation, Withdraw, TOKEN_2022_PROGRAM_ID,
};
use whitelist_transfer_hook::error::HookError;
use whitelist_transfer_hook::ledger::User;
use whitelist_transfer_hook::vault::Vault;

fn addr(b: u8) -> Address {
    Address::new([b; 32])
}

fn program() -> Address {
    addr(200)
}

/// A token-2022 `TransferChecked` of `amount` (9 decimals) on `authority`'s
/// signature.
fn transfer_checked(authority: Address, amount: u64) -> Operation {
    let mut data = vec![12u8];
    data.extend_from_slice(&amount.to_le_bytes());
    data.push(9);
    Operation {
        program_id: Address::new(TOKEN_2022_PROGRAM_ID),
        accounts: vec![addr(10), addr(11), addr(12), authority, addr(13), addr(14)],
        data,
    }
}

fn request() -> Operation {
    Operation { program_id: program(), accounts: vec![], data: vec![0, 1, 2] }
}

fn vault() -> Vault {
    Vault { admin: addr(1), mint: addr(2), vault_token_account: addr(3), bump: 255 }
}

fn deposit(ops: Vec<Operation>, current_index: usize, balance: u64) -> Deposit {
    Deposit {
        user: addr(7),
        user_state: User { balance, bump: 250 },
        instructions: InstructionLog { operations: ops, current_index },
    }
}

fn withdraw(ops: Vec<Operation>, current_index: usize, balance: u64) -> Withdraw {
    Withdraw {
        user: addr(7),
        vault: vault(),
        user_account: User { balance, bump: 250 },
        instructions: InstructionLog { operations: ops, current_index },
    }
}

#[test]
fn token_2022_program_id_matches_the_token_program() {
    assert_eq!(TOKEN_2022_PROGRAM_ID, anchor_spl::token_2022::ID.to_bytes());
}

#[test]
fn deposit_credits_the_preceding_transfer() {
    let mut d = deposit(vec![transfer_checked(addr(7), 10_000_000_000), request()], 1, 0);
    assert_eq!(d.check_transfer_instruction(), Ok(10_000_000_000));
    assert_eq!(d.deposit(), Ok(()));
    assert_eq!(d.user_state.balance, 10_000_000_000);
    assert_eq!(d.user_state.bump, 250);
}

#[test]
fn deposit_reads_the_amount_little_endian() {
    let op = transfer_checked(addr(7), 0x0102_0304_0506_0708);
    assert_eq!(transfer_amount(&op, &addr(7)), Ok(0x0102_0304_0506_0708));
}

#[test]
fn deposit_without_a_preceding_operation_is_refused() {
    let mut d = deposit(vec![request(), transfer_checked(addr(7), 5)], 0, 3);
    assert_eq!(d.deposit(), Err(HookError::AdjacentOperationNotFound));
    assert_eq!(d.user_state.balance, 3);
    let mut far = deposit(vec![transfer_checked(addr(7), 5)], 4, 3);
    assert_eq!(far.deposit(), Err(HookError::AdjacentOperationNotFound));
}

#[test]
fn deposit_bound_to_another_program_is_refused() {
    let mut op = transfer_checked(addr(7), 5);
    op.program_id = addr(99);
    let mut d = deposit(vec![op, request()], 1, 0);
    assert_eq!(d.deposit(), Err(HookError::UnexpectedProgram));
    assert_eq!(d.user_state.balance, 0);
}

#[test]
fn deposit_bound_to_another_opcode_is_refused() {
    let mut op = transfer_checked(addr(7), 5);
    op.data[0] = 3;
    let mut d = deposit(vec![op, request()], 1, 0);
    assert_eq!(d.deposit(), Err(HookError::UnexpectedOpcode));
    let mut short = transfer_checked(addr(7), 5);
    short.data.truncate(5);
    let mut d = deposit(vec![short, request()], 1, 0);
    assert_eq!(d.deposit(), Err(HookError::UnexpectedOpcode));
    let mut empty = transfer_checked(addr(7), 5);
    empty.data.clear();
    let mut d = deposit(vec![empty, request()], 1, 0);
    assert_eq!(d.deposit(), Err(HookError::UnexpectedOpcode));
}

#[test]
fn deposit_signed_by_someone_else_is_refused() {
    let mut d = deposit(vec![transfer_checked(addr(8), 5), request()], 1, 0);
    assert_eq!(d.deposit(), Err(HookError::SignerMismatch));
    let mut op = transfer_checked(addr(7), 5);
    op.accounts.truncate(3);
    let mut d = deposit(vec![op, request()], 1, 0);
    assert_eq!(d.deposit(), Err(HookError::SignerMismatch));
}

#[test]
fn deposit_past_the_largest_balance_is_refused() {
    let mut d = deposit(vec![transfer_checked(addr(7), 2), request()], 1, u64::MAX - 1);
    assert_eq!(d.deposit(), Err(HookError::BalanceOverflow));
    assert_eq!(d.user_state.balance, u64::MAX - 1);
}

#[test]
fn withdraw_debits_the_following_transfer() {
    let mut w = withdraw(vec![request(), transfer_checked(addr(7), 10_000_000_000)], 0, 10_000_000_000);
    assert_eq!(w.check_transfer_instruction(10_000_000_000), Ok(()));
    assert_eq!(w.withdraw(10_000_000_000), Ok(()));
    assert_eq!(w.user_account.balance, 0);
}

#[test]
fn withdraw_of_another_amount_than_transferred_is_refused() {
    let mut w = withdraw(vec![request(), transfer_checked(addr(7), 9_999_999_999)], 0, 10_000_000_000);
    assert_eq!(w.withdraw(10_000_000_000), Err(HookError::AmountMismatch));
    assert_eq!(w.user_account.balance, 10_000_000_000);
}

#[test]
fn withdraw_of_more_than_the_balance_is_refused() {
    let mut w = withdraw(vec![request(), transfer_checked(addr(7), 11)], 0, 10);
    assert_eq!(w.withdraw(11), Err(HookError::InsufficientBalance));
    assert_eq!(w.user_account.balance, 10);
}

#[test]
fn withdraw_without_a_following_operation_is_refused() {
    let mut w = withdraw(vec![transfer_checked(addr(7), 5), request()], 1, 10);
    assert_eq!(w.withdraw(5), Err(HookError::AdjacentOperationNotFound));
    let mut w = withdraw(vec![request(), transfer_checked(addr(8), 5)], 0, 10);
    assert_eq!(w.withdraw(5), Err(HookError::SignerMismatch));
    assert_eq!(w.user_account.balance, 10);
}
