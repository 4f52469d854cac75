//! The ways in which an operation on a vault can be refused.

use vstd::prelude::*;

verus! {

/// The first of the codes by which the vault's own rules report a refusal.
pub const ERROR_CODE_OFFSET: u32 = 6000;

/// A refusal by one of the vault's own rules. The caller has to correct the
/// call and submit it again: nothing is retried.
#[derive(Clone, Copy, Debug, PartialEq, Eq, Structural)]
pub enum LockItError {
    /// The unlock period is not between 1 and 365 days.
    InvalidDays,
    /// The amount to deposit is zero.
    ZeroAmount,
    /// The caller is not the owner of the vault.
    NotOwner,
    /// The unlock time has not come yet.
    StillLocked,
    /// There is nothing in the vault to withdraw.
    ZeroBalance,
    /// The deposit would take the balance beyond what it can hold.
    MathOverflow,
}

impl LockItError {
    /// The place of the error among the vault's rules, counted from zero.
    pub open spec fn index(self) -> int {
        match self {
            LockItError::InvalidDays => 0,
            LockItError::ZeroAmount => 1,
            LockItError::NotOwner => 2,
            LockItError::StillLocked => 3,
            LockItError::ZeroBalance => 4,
            LockItError::MathOverflow => 5,
        }
    }

    /// The text that tells a person what went wrong.
    pub open spec fn message_spec(self) -> Seq<char> {
        match self {
            LockItError::InvalidDays => "Unlock period must be 1–365 days"@,
            LockItError::ZeroAmount => "Amount must be > 0"@,
            LockItError::NotOwner => "Not the vault owner"@,
            LockItError::StillLocked => "Funds are still locked"@,
            LockItError::ZeroBalance => "Vault is empty"@,
            LockItError::MathOverflow => "Math overflow"@,
        }
    }

    /// The stable code by which a machine tells the errors apart.
    pub fn code(&self) -> (code: u32)
        ensures
            code == ERROR_CODE_OFFSET + self.index(),
    {
        match self {
            LockItError::InvalidDays => ERROR_CODE_OFFSET,
            LockItError::ZeroAmount => ERROR_CODE_OFFSET + 1,
            LockItError::NotOwner => ERROR_CODE_OFFSET + 2,
            LockItError::StillLocked => ERROR_CODE_OFFSET + 3,
            LockItError::ZeroBalance => ERROR_CODE_OFFSET + 4,
            LockItError::MathOverflow => ERROR_CODE_OFFSET + 5,
        }
    }

    /// The text that tells a person what went wrong.
    pub fn message(&self) -> (message: &'static str)
        ensures
            message@ == self.message_spec(),
    {
        match self {
            LockItError::InvalidDays => "Unlock period must be 1–365 days",
            LockItError::ZeroAmount => "Amount must be > 0",
            LockItError::NotOwner => "Not the vault owner",
            LockItError::StillLocked => "Funds are still locked",
            LockItError::ZeroBalance => "Vault is empty",
            LockItError::MathOverflow => "Math overflow",
        }
    }
}

/// A refusal that comes from the accounts handed to an operation rather than
/// from the vault's rules.
#[derive(Clone, Copy, Debug, PartialEq, Eq, Structural)]
pub enum AccountError {
    /// No nonce gives the owner a valid vault address.
    NoViableNonce,
    /// The vault account does not lie at the address derived for the caller.
    AddressMismatch,
    /// A vault has already been created at this address.
    VaultExists,
    /// No vault has been created at this address yet.
    VaultMissing,
    /// The account that has to pay holds less than the amount.
    InsufficientFunds,
    /// The account that is paid cannot hold the amount on top of what it has.
    BalanceOverflow,
}

/// Why an operation on a vault was refused.
#[derive(Clone, Copy, Debug, PartialEq, Eq, Structural)]
pub enum VaultError {
    /// One of the vault's own rules refused the call.
    Rule(LockItError),
    /// The accounts handed in do not allow the call.
    Account(AccountError),
}

} // verus!
