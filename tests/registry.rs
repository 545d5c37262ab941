use whitelist_transfer_hook::address::Address;
use whitelist_transfer_hook::error::HookError;
use whitelist_transfer_hook::vault::Vault;
use whitelist_transfer_hook::whitelist::{
    Whitelist, WhitelistOperations, ENTRY_WIDTH, MAX_ACCOUNT_SIZE, WHITELIST_BASE_SIZE,
};

fn addr(b: u8) -> Address {
    Address::new([b; 32])
}

fn ops(admin_lamports: u64, whitelist_lamports: u64) -> WhitelistOperations {
    WhitelistOperations {
        admin: addr(1),
        admin_lamports,
        vault: Vault { admin: addr(1), mint: addr(2), vault_token_account: addr(3), bump: 254 },
        whitelist: Whitelist::new(),
        whitelist_data_len: WHITELIST_BASE_SIZE,
        whitelist_lamports,
    }
}

#[test]
fn add_twice_holds_the_principal_once() {
    let mut o = ops(1_000_000, 1_000);
    assert_eq!(o.add_to_whitelist(addr(9), 1_500), Ok(()));
    assert_eq!(o.add_to_whitelist(addr(9), 2_000), Ok(()));
    assert_eq!(o.whitelist.address, vec![addr(9)]);
    assert_eq!(o.whitelist_data_len, WHITELIST_BASE_SIZE + ENTRY_WIDTH);
    assert_eq!(o.whitelist_lamports, 1_500);
    assert_eq!(o.admin_lamports, 999_500);
}

#[test]
fn remove_twice_is_a_no_op_the_second_time() {
    let mut o = ops(1_000_000, 1_000);
    o.add_to_whitelist(addr(9), 1_500).unwrap();
    o.add_to_whitelist(addr(8), 2_000).unwrap();
    assert_eq!(o.remove_from_whitelist(addr(9), 1_500), Ok(()));
    let after_first = (o.whitelist.address.clone(), o.whitelist_data_len, o.whitelist_lamports, o.admin_lamports);
    assert_eq!(o.remove_from_whitelist(addr(9), 1_000), Ok(()));
    let after_second = (o.whitelist.address.clone(), o.whitelist_data_len, o.whitelist_lamports, o.admin_lamports);
    assert_eq!(after_first, after_second);
    assert_eq!(o.whitelist.address, vec![addr(8)]);
    assert_eq!(o.whitelist_lamports, 1_500);
    assert_eq!(o.admin_lamports, 999_500);
}

#[test]
fn add_then_remove_restores_size_and_funding() {
    let mut o = ops(50_000, 1_000);
    o.add_to_whitelist(addr(4), 1_200).unwrap();
    let before = (o.whitelist.address.clone(), o.whitelist_data_len, o.whitelist_lamports, o.admin_lamports);
    assert_eq!(o.add_to_whitelist(addr(5), 1_500), Ok(()));
    assert_eq!(o.admin_lamports, 50_000 - 200 - 300);
    assert_eq!(o.remove_from_whitelist(addr(5), 1_200), Ok(()));
    let after = (o.whitelist.address.clone(), o.whitelist_data_len, o.whitelist_lamports, o.admin_lamports);
    assert_eq!(before, after);
}

#[test]
fn remove_keeps_the_order_of_the_others() {
    let mut o = ops(50_000, 0);
    for b in [4u8, 5, 6, 7] {
        o.add_to_whitelist(addr(b), 0).unwrap();
    }
    o.remove_from_whitelist(addr(5), 0).unwrap();
    assert_eq!(o.whitelist.address, vec![addr(4), addr(6), addr(7)]);
    assert_eq!(o.whitelist_data_len, WHITELIST_BASE_SIZE + 3 * ENTRY_WIDTH);
    assert!(o.whitelist.is_authorized(&addr(6)));
    assert!(!o.whitelist.is_authorized(&addr(5)));
    assert_eq!(o.whitelist.position(&addr(7)), Some(2));
}

#[test]
fn only_the_administrator_changes_the_registry() {
    let mut o = ops(50_000, 0);
    o.admin = addr(66);
    assert_eq!(o.add_to_whitelist(addr(4), 100), Err(HookError::Unauthorized));
    assert_eq!(o.remove_from_whitelist(addr(4), 100), Err(HookError::Unauthorized));
    assert!(o.whitelist.address.is_empty());
    assert_eq!(o.admin_lamports, 50_000);
}

#[test]
fn add_without_enough_funding_is_refused() {
    let mut o = ops(99, 1_000);
    assert_eq!(o.add_to_whitelist(addr(4), 1_100), Err(HookError::InsufficientFunding));
    assert!(o.whitelist.address.is_empty());
    assert_eq!(o.whitelist_data_len, WHITELIST_BASE_SIZE);
    assert_eq!((o.admin_lamports, o.whitelist_lamports), (99, 1_000));
    assert_eq!(o.add_to_whitelist(addr(4), 1_099), Ok(()));
    assert_eq!((o.admin_lamports, o.whitelist_lamports), (0, 1_099));
}

#[test]
fn add_past_the_size_limit_is_refused() {
    let mut o = ops(0, 0);
    o.whitelist_data_len = MAX_ACCOUNT_SIZE - ENTRY_WIDTH + 1;
    assert_eq!(o.add_to_whitelist(addr(4), 0), Err(HookError::StorageLimitExceeded));
    assert_eq!(o.whitelist_data_len, MAX_ACCOUNT_SIZE - ENTRY_WIDTH + 1);
}

#[test]
fn realloc_moves_exactly_the_difference() {
    let mut o = ops(1_000, 500);
    assert_eq!(o.realloc_whitelist(true, 800), Ok(()));
    assert_eq!((o.whitelist_data_len, o.whitelist_lamports, o.admin_lamports), (44, 800, 700));
    assert_eq!(o.realloc_whitelist(true, 600), Ok(()));
    assert_eq!((o.whitelist_data_len, o.whitelist_lamports, o.admin_lamports), (76, 800, 700));
    assert_eq!(o.realloc_whitelist(false, 650), Ok(()));
    assert_eq!((o.whitelist_data_len, o.whitelist_lamports, o.admin_lamports), (44, 650, 850));
}
