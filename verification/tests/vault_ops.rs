//! End-to-end exercises of the vault operations: creation, deposit,
//! withdrawal, lock, unlock and cross-vault transfer, with every error path.

use collateral_vault::errors::ErrorCode;
use collateral_vault::identity::Identity;
use collateral_vault::ops;
use collateral_vault::vault::CollateralVault;
use collateral_vault::MIN_DEPOSIT_AMOUNT;

fn owner() -> Identity {
    Identity::new(0x1111, 0xaaaa)
}

fn custody() -> Identity {
    Identity::new(0x2222, 0xbbbb)
}

fn fresh_vault(initial_deposit: u64) -> CollateralVault {
    ops::initialize_vault(owner(), custody(), initial_deposit, 1_700_000_000, 254)
        .expect("the deposit meets the minimum")
}

#[test]
fn test_initialize_vault_success() {
    let initial_deposit = 100_000_000;
    let vault = fresh_vault(initial_deposit);
    assert_eq!(vault.owner, owner());
    assert_eq!(vault.token_account, custody());
    assert_eq!(vault.total_balance, initial_deposit);
    assert_eq!(vault.locked_balance, 0);
    assert_eq!(vault.available_balance, initial_deposit);
    assert_eq!(vault.total_deposited, initial_deposit);
    assert_eq!(vault.total_withdrawn, 0);
    assert_eq!(vault.created_at, 1_700_000_000);
    assert_eq!(vault.bump, 254);
}

#[test]
fn test_initialize_vault_below_minimum() {
    let r = ops::initialize_vault(owner(), custody(), 999_999, 1_700_000_000, 254);
    assert_eq!(r, Err(ErrorCode::DepositBelowMinimum));
    assert_eq!(MIN_DEPOSIT_AMOUNT, 1_000_000);
    assert!(ops::initialize_vault(owner(), custody(), 1_000_000, 0, 0).is_ok());
}

#[test]
fn test_deposit_success() {
    let mut vault = fresh_vault(100_000_000);
    let r = ops::deposit(&mut vault, owner(), 50_000_000);
    assert_eq!(r, Ok(()));
    assert_eq!(vault.total_balance, 150_000_000);
    assert_eq!(vault.available_balance, 150_000_000);
    assert_eq!(vault.locked_balance, 0);
    assert_eq!(vault.total_deposited, 150_000_000);
    assert_eq!(vault.total_withdrawn, 0);
    assert_eq!(vault.total_balance, vault.locked_balance + vault.available_balance);
}

#[test]
fn test_deposit_error_zero_amount() {
    let mut vault = fresh_vault(100_000_000);
    let before = vault;
    let r = ops::deposit(&mut vault, owner(), 0);
    assert_eq!(r, Err(ErrorCode::InvalidAmount));
    assert_eq!(vault, before);
}

#[test]
fn test_deposit_minimum_applies_only_at_creation() {
    let mut vault = fresh_vault(1_000_000);
    let r = ops::deposit(&mut vault, owner(), 1);
    assert_eq!(r, Ok(()));
    assert_eq!(vault.total_balance, 1_000_001);
}

#[test]
fn test_deposit_rejects_non_owner() {
    let mut vault = fresh_vault(100_000_000);
    let before = vault;
    let stranger = Identity::new(0x9999, 0x9999);
    let r = ops::deposit(&mut vault, stranger, 1_000);
    assert_eq!(r, Err(ErrorCode::UnauthorizedOwner));
    assert_eq!(vault, before);
}

#[test]
fn test_deposit_overflow_leaves_vault_unchanged() {
    let mut vault = fresh_vault(MIN_DEPOSIT_AMOUNT);
    let headroom = u64::MAX - vault.total_balance;
    assert_eq!(ops::deposit(&mut vault, owner(), headroom), Ok(()));
    assert_eq!(vault.total_balance, u64::MAX);
    let before = vault;
    let r = ops::deposit(&mut vault, owner(), 1);
    assert_eq!(r, Err(ErrorCode::ArithmeticOverflow));
    assert_eq!(vault, before);
}

#[test]
fn test_withdraw_success() {
    let mut vault = fresh_vault(100_000_000);
    let r = ops::withdraw(&mut vault, owner(), 30_000_000);
    assert_eq!(r, Ok(()));
    assert_eq!(vault.total_balance, 70_000_000);
    assert_eq!(vault.available_balance, 70_000_000);
    assert_eq!(vault.total_deposited, 100_000_000);
    assert_eq!(vault.total_withdrawn, 30_000_000);
}

#[test]
fn test_withdraw_rejects_zero_and_non_owner() {
    let mut vault = fresh_vault(100_000_000);
    let before = vault;
    assert_eq!(ops::withdraw(&mut vault, owner(), 0), Err(ErrorCode::InvalidAmount));
    let stranger = Identity::new(7, 7);
    assert_eq!(
        ops::withdraw(&mut vault, stranger, 1_000),
        Err(ErrorCode::UnauthorizedOwner)
    );
    assert_eq!(vault, before);
}

#[test]
fn test_withdraw_counter_overflow() {
    // A vault whose cumulative withdrawal counter is close to the 64-bit
    // limit: the balances still allow the withdrawal, the counter does not.
    let mut vault = CollateralVault {
        owner: owner(),
        token_account: custody(),
        total_balance: 1_000_000,
        locked_balance: 0,
        available_balance: 1_000_000,
        total_deposited: u64::MAX,
        total_withdrawn: u64::MAX - 5,
        created_at: 0,
        bump: 0,
    };
    let before = vault;
    let r = ops::withdraw(&mut vault, owner(), 10);
    assert_eq!(r, Err(ErrorCode::ArithmeticOverflow));
    assert_eq!(vault, before);
    assert_eq!(ops::withdraw(&mut vault, owner(), 5), Ok(()));
    assert_eq!(vault.total_withdrawn, u64::MAX);
}

#[test]
fn test_vault_methods_report_raw_range_errors() {
    // The record-level primitives used by the coordinator signal bare range
    // violations; the operation layer normally screens them first.
    let mut vault = fresh_vault(2_000_000);
    let before = vault;
    assert_eq!(vault.withdraw(2_000_001), Err(ErrorCode::ArithmeticUnderflow));
    assert_eq!(vault.lock(2_000_001), Err(ErrorCode::ArithmeticUnderflow));
    assert_eq!(vault.unlock(1), Err(ErrorCode::ArithmeticUnderflow));
    assert_eq!(vault.transfer_out(2_000_001), Err(ErrorCode::ArithmeticUnderflow));
    assert_eq!(vault, before);
    let mut full = before;
    full.total_balance = u64::MAX;
    full.available_balance = u64::MAX;
    assert_eq!(full.transfer_in(1), Err(ErrorCode::ArithmeticOverflow));
    assert_eq!(full.deposit(1), Err(ErrorCode::ArithmeticOverflow));
}

#[test]
fn test_scenario_lock_then_overdraw() {
    // Deposit to 150,000,000; an authorized program locks 60,000,000; a
    // withdrawal of one unit more than the remaining available part fails
    // without mutation.
    let mut vault = fresh_vault(100_000_000);
    assert_eq!(ops::deposit(&mut vault, owner(), 50_000_000), Ok(()));

    let admin = Identity::new(0xad, 0xad);
    let program = Identity::new(0x50, 0x50);
    let mut authority = ops::initialize_authority(admin, 255);
    assert_eq!(ops::add_authorized_program(&mut authority, admin, program), Ok(()));

    let r = ops::lock_collateral(&authority, &mut vault, program, owner(), 60_000_000);
    assert_eq!(r, Ok(()));
    assert_eq!(vault.locked_balance, 60_000_000);
    assert_eq!(vault.available_balance, 90_000_000);
    assert_eq!(vault.total_balance, 150_000_000);

    let before = vault;
    let r = ops::withdraw(&mut vault, owner(), 90_000_001);
    assert_eq!(r, Err(ErrorCode::InsufficientAvailableBalance));
    assert_eq!(vault, before);
}

#[test]
fn test_lock_unlock_round_trip() {
    let mut vault = fresh_vault(100_000_000);
    let admin = Identity::new(0xad, 0xad);
    let program = Identity::new(0x50, 0x50);
    let mut authority = ops::initialize_authority(admin, 255);
    assert_eq!(ops::add_authorized_program(&mut authority, admin, program), Ok(()));

    let before = vault;
    assert_eq!(
        ops::lock_collateral(&authority, &mut vault, program, owner(), 30_000_000),
        Ok(())
    );
    assert_eq!(vault.locked_balance, 30_000_000);
    assert_eq!(vault.available_balance, 70_000_000);
    assert_eq!(
        ops::unlock_collateral(&authority, &mut vault, program, owner(), 30_000_000),
        Ok(())
    );
    assert_eq!(vault, before);
}

#[test]
fn test_unlock_more_than_locked() {
    let mut vault = fresh_vault(100_000_000);
    let admin = Identity::new(0xad, 0xad);
    let program = Identity::new(0x50, 0x50);
    let mut authority = ops::initialize_authority(admin, 255);
    assert_eq!(ops::add_authorized_program(&mut authority, admin, program), Ok(()));
    assert_eq!(
        ops::lock_collateral(&authority, &mut vault, program, owner(), 10),
        Ok(())
    );
    let before = vault;
    let r = ops::unlock_collateral(&authority, &mut vault, program, owner(), 11);
    assert_eq!(r, Err(ErrorCode::InsufficientLockedBalance));
    assert_eq!(vault, before);
}

#[test]
fn test_lock_checks_claimed_owner() {
    let mut vault = fresh_vault(100_000_000);
    let admin = Identity::new(0xad, 0xad);
    let program = Identity::new(0x50, 0x50);
    let mut authority = ops::initialize_authority(admin, 255);
    assert_eq!(ops::add_authorized_program(&mut authority, admin, program), Ok(()));
    let before = vault;
    let wrong_owner = Identity::new(0x3333, 0x3333);
    let r = ops::lock_collateral(&authority, &mut vault, program, wrong_owner, 10);
    assert_eq!(r, Err(ErrorCode::UnauthorizedOwner));
    assert_eq!(vault, before);
}

#[test]
fn test_transfer_success_and_conservation() {
    let mut from = fresh_vault(100_000_000);
    let to_owner = Identity::new(0x4444, 0x4444);
    let mut to =
        ops::initialize_vault(to_owner, Identity::new(0x5555, 0x5555), 1_000_000, 0, 1)
            .expect("the deposit meets the minimum");
    assert_eq!(ops::withdraw(&mut to, to_owner, 1_000_000), Ok(()));
    assert_eq!(to.total_balance, 0);

    let sum_before = from.total_balance + to.total_balance;
    let r = ops::transfer_collateral(&mut from, &mut to, 100_000_000);
    assert_eq!(r, Ok(()));
    assert_eq!(from.total_balance, 0);
    assert_eq!(to.total_balance, 100_000_000);
    assert_eq!(from.total_balance + to.total_balance, sum_before);
    // Transfers move the totals but never the cumulative counters.
    assert_eq!(from.total_deposited, 100_000_000);
    assert_eq!(from.total_withdrawn, 0);
    assert_eq!(to.total_deposited, 1_000_000);
    assert_eq!(to.total_withdrawn, 1_000_000);

    let r = ops::transfer_collateral(&mut from, &mut to, 1);
    assert_eq!(r, Err(ErrorCode::InsufficientAvailableBalance));
    assert_eq!(from.total_balance, 0);
    assert_eq!(to.total_balance, 100_000_000);
}

#[test]
fn test_transfer_rejects_same_owner() {
    let mut from = fresh_vault(100_000_000);
    let mut same_owner_copy = fresh_vault(100_000_000);
    let r = ops::transfer_collateral(&mut from, &mut same_owner_copy, 10);
    assert_eq!(r, Err(ErrorCode::SameVaultTransfer));
}

#[test]
fn test_transfer_rejects_zero_amount() {
    let mut from = fresh_vault(100_000_000);
    let mut to =
        ops::initialize_vault(Identity::new(8, 8), custody(), 1_000_000, 0, 1).unwrap();
    let r = ops::transfer_collateral(&mut from, &mut to, 0);
    assert_eq!(r, Err(ErrorCode::InvalidAmount));
}

#[test]
fn test_transfer_rejects_destination_overflow() {
    let mut from = fresh_vault(100_000_000);
    let to_owner = Identity::new(0x4444, 0x4444);
    let mut to = CollateralVault {
        owner: to_owner,
        token_account: custody(),
        total_balance: u64::MAX - 10,
        locked_balance: 0,
        available_balance: u64::MAX - 10,
        total_deposited: u64::MAX - 10,
        total_withdrawn: 0,
        created_at: 0,
        bump: 0,
    };
    let from_before = from;
    let to_before = to;
    let r = ops::transfer_collateral(&mut from, &mut to, 100);
    assert_eq!(r, Err(ErrorCode::ArithmeticOverflow));
    assert_eq!(from, from_before);
    assert_eq!(to, to_before);
}

#[test]
fn test_invariant_holds_across_operations() {
    let mut vault = fresh_vault(5_000_000);
    let admin = Identity::new(0xad, 0xad);
    let program = Identity::new(0x50, 0x50);
    let mut authority = ops::initialize_authority(admin, 255);
    assert_eq!(ops::add_authorized_program(&mut authority, admin, program), Ok(()));

    assert_eq!(vault.total_balance, vault.locked_balance + vault.available_balance);
    assert_eq!(ops::deposit(&mut vault, owner(), 3_000_000), Ok(()));
    assert_eq!(vault.total_balance, vault.locked_balance + vault.available_balance);
    assert_eq!(
        ops::lock_collateral(&authority, &mut vault, program, owner(), 4_000_000),
        Ok(())
    );
    assert_eq!(vault.total_balance, vault.locked_balance + vault.available_balance);
    assert_eq!(ops::withdraw(&mut vault, owner(), 2_000_000), Ok(()));
    assert_eq!(vault.total_balance, vault.locked_balance + vault.available_balance);
    assert_eq!(
        ops::unlock_collateral(&authority, &mut vault, program, owner(), 1_000_000),
        Ok(())
    );
    assert_eq!(vault.total_balance, vault.locked_balance + vault.available_balance);
    assert_eq!(vault.total_balance, 6_000_000);
    assert_eq!(vault.locked_balance, 3_000_000);
    assert_eq!(vault.available_balance, 3_000_000);
}
