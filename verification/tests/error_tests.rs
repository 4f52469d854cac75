use lockit::error::{AccountError, LockItError, VaultError, ERROR_CODE_OFFSET};

#[test]
fn codes_count_up_from_the_offset() {
    assert_eq!(ERROR_CODE_OFFSET, 6000);
    assert_eq!(LockItError::InvalidDays.code(), 6000);
    assert_eq!(LockItError::ZeroAmount.code(), 6001);
    assert_eq!(LockItError::NotOwner.code(), 6002);
    assert_eq!(LockItError::StillLocked.code(), 6003);
    assert_eq!(LockItError::ZeroBalance.code(), 6004);
    assert_eq!(LockItError::MathOverflow.code(), 6005);
}

#[test]
fn messages_say_what_went_wrong() {
    assert_eq!(LockItError::InvalidDays.message(), "Unlock period must be 1\u{2013}365 days");
    assert_eq!(LockItError::ZeroAmount.message(), "Amount must be > 0");
    assert_eq!(LockItError::NotOwner.message(), "Not the vault owner");
    assert_eq!(LockItError::StillLocked.message(), "Funds are still locked");
    assert_eq!(LockItError::ZeroBalance.message(), "Vault is empty");
    assert_eq!(LockItError::MathOverflow.message(), "Math overflow");
}

#[test]
fn rule_and_account_errors_differ() {
    assert_ne!(
        VaultError::Rule(LockItError::ZeroBalance),
        VaultError::Account(AccountError::InsufficientFunds)
    );
    assert_eq!(
        VaultError::Account(AccountError::VaultExists),
        VaultError::Account(AccountError::VaultExists)
    );
}
