//! The vault record, the accounts an operation works on, and the three
//! operations: create, deposit and withdraw.
//!
//! Every operation is all or nothing: it either succeeds and changes the
//! accounts as described, or it reports why it refused and leaves them as they
//! were.

use crate::address::{
    address_view, find_vault_address, found_vault_address, found_view, vault_address,
    vault_address_spec, Address,
};
use crate::error::{AccountError, LockItError, VaultError};
use vstd::prelude::*;

verus! {

/// The shortest time, in days, for which a vault can be locked.
pub const MIN_UNLOCK_DAYS: u64 = 1;

/// The longest time, in days, for which a vault can be locked.
pub const MAX_UNLOCK_DAYS: u64 = 365;

/// The length of a day in seconds.
pub const SECONDS_PER_DAY: i64 = 86_400;

/// The record of one owner's vault.
#[derive(Clone, Copy, Debug, PartialEq, Eq)]
pub struct Vault {
    /// The only identity that may deposit and withdraw. Never changes.
    pub owner: Address,
    /// The amount held for the owner.
    pub balance: u64,
    /// The time, in seconds since the epoch, before which nothing can be
    /// withdrawn. Never changes.
    pub unlock_time: i64,
    /// The nonce with which the vault's address was derived from the owner.
    pub bump: u8,
}

/// The account at a vault's address: the funds in custody there and, once the
/// vault has been created, its record.
#[derive(Clone, Copy, Debug, PartialEq, Eq)]
pub struct VaultAccount {
    pub key: Address,
    pub lamports: u64,
    pub data: Option<Vault>,
}

/// The account of the identity that calls an operation, with the funds it
/// holds outside the vault.
#[derive(Clone, Copy, Debug, PartialEq, Eq)]
pub struct Wallet {
    pub key: Address,
    pub lamports: u64,
}

/// The accounts that `create_vault` works on.
#[derive(Clone, Copy, Debug, PartialEq, Eq)]
pub struct CreateVault {
    pub vault: VaultAccount,
    pub user: Wallet,
}

/// The accounts that `deposit` works on.
#[derive(Clone, Copy, Debug, PartialEq, Eq)]
pub struct Deposit {
    pub vault: VaultAccount,
    pub user: Wallet,
}

/// The accounts that `withdraw` works on.
#[derive(Clone, Copy, Debug, PartialEq, Eq)]
pub struct Withdraw {
    pub vault: VaultAccount,
    pub user: Wallet,
}

impl VaultAccount {
    /// The funds in custody cover the recorded balance.
    pub open spec fn covered(self) -> bool {
        self.data matches Some(v) ==> v.balance <= self.lamports
    }

    /// The account lies at the address that the owner and the stored nonce give.
    pub open spec fn anchored(self) -> bool {
        self.data matches Some(v) ==> vault_address_spec(v.owner@, v.bump) == Some(self.key@)
    }

    /// The account is one that the operations of this module can have left.
    pub open spec fn wf(self) -> bool {
        self.covered() && self.anchored()
    }
}

/// Whether a vault account and a caller's account can stand on one ledger: the
/// vault account is well formed and the funds of both fit in a `u64`.
pub open spec fn accounts_wf(vault: VaultAccount, user: Wallet) -> bool {
    vault.wf() && vault.lamports + user.lamports <= u64::MAX
}

/// The address derived for `caller` with the nonce stored in the vault; `None`
/// where no vault has been created or the nonce gives no address.
pub open spec fn rederived(vault: VaultAccount, caller: Address) -> Option<Seq<u8>> {
    match vault.data {
        Some(v) => vault_address_spec(caller@, v.bump),
        None => None,
    }
}

/// What moving `amount` from an account holding `from` to one holding `to`
/// leaves in the two, or why it cannot be done.
pub open spec fn moved(from: u64, to: u64, amount: u64) -> Result<(u64, u64), AccountError> {
    if from < amount {
        Err(AccountError::InsufficientFunds)
    } else if to + amount > u64::MAX {
        Err(AccountError::BalanceOverflow)
    } else {
        Ok(((from - amount) as u64, (to + amount) as u64))
    }
}

/// Moves `amount` from one account's funds to another's.
pub fn move_funds(from: u64, to: u64, amount: u64) -> (res: Result<(u64, u64), AccountError>)
    ensures
        res == moved(from, to, amount),
{
    if from < amount {
        return Err(AccountError::InsufficientFunds);
    }
    match to.checked_add(amount) {
        Some(sum) => Ok((from - amount, sum)),
        None => Err(AccountError::BalanceOverflow),
    }
}

/// Whether a vault may be locked for this number of days.
pub open spec fn valid_days(unlock_days: u64) -> bool {
    MIN_UNLOCK_DAYS <= unlock_days <= MAX_UNLOCK_DAYS
}

/// The unlock time of a vault created at `now` and locked for `unlock_days`.
pub open spec fn unlock_time_spec(now: i64, unlock_days: u64) -> int {
    now + unlock_days * SECONDS_PER_DAY
}

/// Whether the unlock time of a vault created at `now` can be written down:
/// for a valid number of days it must not lie beyond the last `i64`.
pub open spec fn lock_fits(now: i64, unlock_days: u64) -> bool {
    valid_days(unlock_days) ==> unlock_time_spec(now, unlock_days) <= i64::MAX
}

/// Tells whether a vault created at `now` for `unlock_days` has an unlock time
/// that can be written down, which is what `create_vault` asks of its caller.
pub fn can_lock(now: i64, unlock_days: u64) -> (ok: bool)
    ensures
        ok == lock_fits(now, unlock_days),
{
    if unlock_days < MIN_UNLOCK_DAYS || unlock_days > MAX_UNLOCK_DAYS {
        return true;
    }
    let period: i64 = (unlock_days as i64) * SECONDS_PER_DAY;
    now <= i64::MAX - period
}

impl CreateVault {
    /// Whether a vault is created, and with which nonce, given what the search
    /// for the caller's vault address found.
    pub open spec fn outcome(self, unlock_days: u64, found: Option<(Seq<u8>, u8)>) -> Result<
        u8,
        VaultError,
    > {
        if !valid_days(unlock_days) {
            Err(VaultError::Rule(LockItError::InvalidDays))
        } else {
            match found {
                None => Err(VaultError::Account(AccountError::NoViableNonce)),
                Some((address, nonce)) => if address != self.vault.key@ {
                    Err(VaultError::Account(AccountError::AddressMismatch))
                } else if self.vault.data is Some {
                    Err(VaultError::Account(AccountError::VaultExists))
                } else {
                    Ok(nonce)
                },
            }
        }
    }

    /// The accounts once the vault has been created at `now` with `nonce`.
    pub open spec fn created(self, unlock_days: u64, now: i64, nonce: u8) -> CreateVault {
        CreateVault {
            vault: VaultAccount {
                key: self.vault.key,
                lamports: self.vault.lamports,
                data: Some(
                    Vault {
                        owner: self.user.key,
                        balance: 0,
                        unlock_time: unlock_time_spec(now, unlock_days) as i64,
                        bump: nonce,
                    },
                ),
            },
            user: self.user,
        }
    }

    /// The accounts after `create_vault`, whether it succeeded or not.
    pub open spec fn after(
        self,
        unlock_days: u64,
        now: i64,
        found: Option<(Seq<u8>, u8)>,
    ) -> CreateVault {
        match self.outcome(unlock_days, found) {
            Ok(nonce) => self.created(unlock_days, now, nonce),
            Err(_) => self,
        }
    }
}

impl Deposit {
    /// Whether `amount` is accepted, given the address derived again for the
    /// caller from the stored nonce.
    pub open spec fn outcome(self, amount: u64, derived: Option<Seq<u8>>) -> Result<
        (),
        VaultError,
    > {
        if amount == 0 {
            Err(VaultError::Rule(LockItError::ZeroAmount))
        } else {
            match self.vault.data {
                None => Err(VaultError::Account(AccountError::VaultMissing)),
                Some(v) => if self.user.key@ != v.owner@ {
                    Err(VaultError::Rule(LockItError::NotOwner))
                } else if derived != Some(self.vault.key@) {
                    Err(VaultError::Account(AccountError::AddressMismatch))
                } else {
                    match moved(self.user.lamports, self.vault.lamports, amount) {
                        Err(e) => Err(VaultError::Account(e)),
                        Ok(_) => if v.balance + amount > u64::MAX {
                            Err(VaultError::Rule(LockItError::MathOverflow))
                        } else {
                            Ok(())
                        },
                    }
                },
            }
        }
    }

    /// The accounts once `amount` has gone from the caller into the vault.
    pub open spec fn credited(self, amount: u64) -> Deposit {
        Deposit {
            vault: VaultAccount {
                key: self.vault.key,
                lamports: (self.vault.lamports + amount) as u64,
                data: match self.vault.data {
                    Some(v) => Some(
                        Vault {
                            owner: v.owner,
                            balance: (v.balance + amount) as u64,
                            unlock_time: v.unlock_time,
                            bump: v.bump,
                        },
                    ),
                    None => None,
                },
            },
            user: Wallet { key: self.user.key, lamports: (self.user.lamports - amount) as u64 },
        }
    }

    /// The accounts after `deposit`, whether it succeeded or not.
    pub open spec fn after(self, amount: u64, derived: Option<Seq<u8>>) -> Deposit {
        if self.outcome(amount, derived) is Ok {
            self.credited(amount)
        } else {
            self
        }
    }
}

impl Withdraw {
    /// The amount that a withdrawal at `now` pays out, or why it is refused,
    /// given the address derived again for the caller from the stored nonce.
    pub open spec fn outcome(self, now: i64, derived: Option<Seq<u8>>) -> Result<u64, VaultError> {
        match self.vault.data {
            None => Err(VaultError::Account(AccountError::VaultMissing)),
            Some(v) => if self.user.key@ != v.owner@ {
                Err(VaultError::Rule(LockItError::NotOwner))
            } else if now < v.unlock_time {
                Err(VaultError::Rule(LockItError::StillLocked))
            } else if v.balance == 0 {
                Err(VaultError::Rule(LockItError::ZeroBalance))
            } else if derived != Some(self.vault.key@) {
                Err(VaultError::Account(AccountError::AddressMismatch))
            } else {
                match moved(self.vault.lamports, self.user.lamports, v.balance) {
                    Err(e) => Err(VaultError::Account(e)),
                    Ok(_) => Ok(v.balance),
                }
            },
        }
    }

    /// The accounts once the whole balance has gone from the vault to the caller.
    pub open spec fn emptied(self) -> Withdraw {
        match self.vault.data {
            Some(v) => Withdraw {
                vault: VaultAccount {
                    key: self.vault.key,
                    lamports: (self.vault.lamports - v.balance) as u64,
                    data: Some(
                        Vault {
                            owner: v.owner,
                            balance: 0,
                            unlock_time: v.unlock_time,
                            bump: v.bump,
                        },
                    ),
                },
                user: Wallet {
                    key: self.user.key,
                    lamports: (self.user.lamports + v.balance) as u64,
                },
            },
            None => self,
        }
    }

    /// The accounts after `withdraw`, whether it succeeded or not.
    pub open spec fn after(self, now: i64, derived: Option<Seq<u8>>) -> Withdraw {
        if self.outcome(now, derived) is Ok {
            self.emptied()
        } else {
            self
        }
    }
}

/// Creates the caller's vault, given what the search for the caller's vault
/// address found.
///
/// The unlock period must be 1 to 365 days, the vault account must lie at the
/// address found, and no vault may exist there yet. On success the record
/// belongs to the caller, holds nothing, unlocks `unlock_days` days after
/// `now` and stores the nonce found; the vault's address is returned.
pub fn create_vault_with(
    ctx: &mut CreateVault,
    unlock_days: u64,
    now: i64,
    found: Option<(Address, u8)>,
) -> (res: Result<Address, VaultError>)
    requires
        lock_fits(now, unlock_days),
    ensures
        match old(ctx).outcome(unlock_days, found_view(found)) {
            Ok(_) => res == Ok::<Address, VaultError>(old(ctx).vault.key),
            Err(e) => res == Err::<Address, VaultError>(e),
        },
        *final(ctx) == old(ctx).after(unlock_days, now, found_view(found)),
{
    if unlock_days < MIN_UNLOCK_DAYS || unlock_days > MAX_UNLOCK_DAYS {
        return Err(VaultError::Rule(LockItError::InvalidDays));
    }
    let (address, nonce) = match found {
        Some(pair) => pair,
        None => {
            return Err(VaultError::Account(AccountError::NoViableNonce));
        },
    };
    if !ctx.vault.key.same_as(&address) {
        return Err(VaultError::Account(AccountError::AddressMismatch));
    }
    if ctx.vault.data.is_some() {
        return Err(VaultError::Account(AccountError::VaultExists));
    }
    let unlock_time: i64 = now + (unlock_days as i64) * SECONDS_PER_DAY;
    ctx.vault.data = Some(Vault { owner: ctx.user.key, balance: 0, unlock_time, bump: nonce });
    Ok(ctx.vault.key)
}

/// Creates the caller's vault at the address derived from the caller's
/// identity.
///
/// The address and its nonce are searched for; the rest is as in
/// [`create_vault_with`]. A vault that has been created lies at the address
/// that its owner and its stored nonce give.
pub fn create_vault(ctx: &mut CreateVault, unlock_days: u64, now: i64) -> (res: Result<
    Address,
    VaultError,
>)
    requires
        lock_fits(now, unlock_days),
    ensures
        match old(ctx).outcome(unlock_days, found_vault_address(old(ctx).user.key@)) {
            Ok(_) => res == Ok::<Address, VaultError>(old(ctx).vault.key),
            Err(e) => res == Err::<Address, VaultError>(e),
        },
        *final(ctx) == old(ctx).after(unlock_days, now, found_vault_address(old(ctx).user.key@)),
        old(ctx).vault.wf() ==> final(ctx).vault.wf(),
{
    let found = find_vault_address(&ctx.user.key);
    create_vault_with(ctx, unlock_days, now, found)
}

/// Puts `amount` from the caller's funds into the vault, given the address
/// derived again for the caller from the stored nonce.
///
/// The amount must not be zero, the vault must exist and belong to the caller,
/// and the vault account must lie at the derived address. The funds move
/// first, then the balance grows by `amount`; if the balance cannot hold the
/// sum, nothing has moved.
pub fn deposit_with(ctx: &mut Deposit, amount: u64, derived: Option<Address>) -> (res: Result<
    (),
    VaultError,
>)
    ensures
        res == old(ctx).outcome(amount, address_view(derived)),
        *final(ctx) == old(ctx).after(amount, address_view(derived)),
{
    if amount == 0 {
        return Err(VaultError::Rule(LockItError::ZeroAmount));
    }
    let vault = match ctx.vault.data {
        Some(v) => v,
        None => {
            return Err(VaultError::Account(AccountError::VaultMissing));
        },
    };
    if !ctx.user.key.same_as(&vault.owner) {
        return Err(VaultError::Rule(LockItError::NotOwner));
    }
    if !ctx.vault.key.is_derived(&derived) {
        return Err(VaultError::Account(AccountError::AddressMismatch));
    }
    let (funds, custody) = match move_funds(ctx.user.lamports, ctx.vault.lamports, amount) {
        Ok(pair) => pair,
        Err(e) => {
            return Err(VaultError::Account(e));
        },
    };
    let balance = match vault.balance.checked_add(amount) {
        Some(sum) => sum,
        None => {
            return Err(VaultError::Rule(LockItError::MathOverflow));
        },
    };
    ctx.user.lamports = funds;
    ctx.vault.lamports = custody;
    ctx.vault.data = Some(
        Vault { owner: vault.owner, balance, unlock_time: vault.unlock_time, bump: vault.bump },
    );
    Ok(())
}

/// Puts `amount` from the caller's funds into the caller's vault.
///
/// The vault's address is derived again from the caller and the stored nonce;
/// the rest is as in [`deposit_with`].
pub fn deposit(ctx: &mut Deposit, amount: u64) -> (res: Result<(), VaultError>)
    ensures
        res == old(ctx).outcome(amount, rederived(old(ctx).vault, old(ctx).user.key)),
        *final(ctx) == old(ctx).after(amount, rederived(old(ctx).vault, old(ctx).user.key)),
{
    let derived = match ctx.vault.data {
        Some(v) => vault_address(&ctx.user.key, v.bump),
        None => None,
    };
    deposit_with(ctx, amount, derived)
}

/// Pays the whole balance of the vault out to the caller at the time `now`,
/// given the address derived again for the caller from the stored nonce.
///
/// The vault must exist and belong to the caller, the unlock time must have
/// come, the balance must not be zero, and the vault account must lie at the
/// derived address. On success the amount paid out is returned and the
/// balance is zero.
pub fn withdraw_with(ctx: &mut Withdraw, now: i64, derived: Option<Address>) -> (res: Result<
    u64,
    VaultError,
>)
    ensures
        res == old(ctx).outcome(now, address_view(derived)),
        *final(ctx) == old(ctx).after(now, address_view(derived)),
{
    let vault = match ctx.vault.data {
        Some(v) => v,
        None => {
            return Err(VaultError::Account(AccountError::VaultMissing));
        },
    };
    if !ctx.user.key.same_as(&vault.owner) {
        return Err(VaultError::Rule(LockItError::NotOwner));
    }
    if now < vault.unlock_time {
        return Err(VaultError::Rule(LockItError::StillLocked));
    }
    if vault.balance == 0 {
        return Err(VaultError::Rule(LockItError::ZeroBalance));
    }
    if !ctx.vault.key.is_derived(&derived) {
        return Err(VaultError::Account(AccountError::AddressMismatch));
    }
    let amount = vault.balance;
    let (custody, funds) = match move_funds(ctx.vault.lamports, ctx.user.lamports, amount) {
        Ok(pair) => pair,
        Err(e) => {
            return Err(VaultError::Account(e));
        },
    };
    ctx.vault.lamports = custody;
    ctx.user.lamports = funds;
    ctx.vault.data = Some(
        Vault { owner: vault.owner, balance: 0, unlock_time: vault.unlock_time, bump: vault.bump },
    );
    Ok(amount)
}

/// Pays the whole balance of the caller's vault out to the caller at the time
/// `now`.
///
/// The vault's address is derived again from the caller and the stored nonce;
/// the rest is as in [`withdraw_with`].
pub fn withdraw(ctx: &mut Withdraw, now: i64) -> (res: Result<u64, VaultError>)
    ensures
        res == old(ctx).outcome(now, rederived(old(ctx).vault, old(ctx).user.key)),
        *final(ctx) == old(ctx).after(now, rederived(old(ctx).vault, old(ctx).user.key)),
{
    let derived = match ctx.vault.data {
        Some(v) => vault_address(&ctx.user.key, v.bump),
        None => None,
    };
    withdraw_with(ctx, now, derived)
}

} // verus!
