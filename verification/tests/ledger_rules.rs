use anchor_vault::{check_withdraw, VaultError, VaultState};

#[test]
fn init_space_is_prefix_and_two_bumps() {
    assert_eq!(VaultState::INIT_SPACE, 10);
}

#[test]
fn zero_amount_is_invalid_whatever_the_balance() {
    assert_eq!(check_withdraw(0, 0, 0), Err(VaultError::InvalidAmount));
    assert_eq!(check_withdraw(1_000, 0, 100), Err(VaultError::InvalidAmount));
    assert_eq!(check_withdraw(10, 0, 100), Err(VaultError::InvalidAmount));
    assert_eq!(check_withdraw(u64::MAX, 0, u64::MAX), Err(VaultError::InvalidAmount));
}

#[test]
fn amount_above_balance_is_insufficient_balance() {
    assert_eq!(check_withdraw(1_000, 1_001, 100), Err(VaultError::InsufficientBalance));
    assert_eq!(check_withdraw(0, 1, 0), Err(VaultError::InsufficientBalance));
    assert_eq!(check_withdraw(u64::MAX - 1, u64::MAX, 0), Err(VaultError::InsufficientBalance));
}

#[test]
fn raw_balance_is_judged_before_the_reserve() {
    assert_eq!(check_withdraw(50, 60, 100), Err(VaultError::InsufficientBalance));
    assert_eq!(check_withdraw(50, 50, 100), Err(VaultError::InsufficientBalanceForRent));
}

#[test]
fn amount_that_cuts_into_the_reserve_is_refused() {
    assert_eq!(check_withdraw(105, 6, 100), Err(VaultError::InsufficientBalanceForRent));
    assert_eq!(check_withdraw(105, 105, 100), Err(VaultError::InsufficientBalanceForRent));
    assert_eq!(check_withdraw(100, 1, 100), Err(VaultError::InsufficientBalanceForRent));
    assert_eq!(check_withdraw(10, 1, u64::MAX), Err(VaultError::InsufficientBalanceForRent));
}

#[test]
fn amount_within_the_slack_is_allowed() {
    assert_eq!(check_withdraw(105, 5, 100), Ok(()));
    assert_eq!(check_withdraw(105, 1, 100), Ok(()));
    assert_eq!(check_withdraw(7, 7, 0), Ok(()));
    assert_eq!(check_withdraw(u64::MAX, u64::MAX, 0), Ok(()));
    assert_eq!(check_withdraw(u64::MAX, 1, u64::MAX - 1), Ok(()));
}

#[test]
fn balance_below_the_reserve_does_not_wrap() {
    assert_eq!(check_withdraw(10, 5, 100), Err(VaultError::InsufficientBalanceForRent));
}
