//! What holds of a vault over its whole life, proved from the descriptions of
//! the three operations.

use crate::error::{AccountError, LockItError, VaultError};
use crate::vault::{
    accounts_wf, lock_fits, moved, rederived, valid_days, CreateVault, Deposit, VaultAccount,
    Wallet, Withdraw,
};
use vstd::prelude::*;

verus! {

/// The sum of a sequence of amounts.
pub open spec fn total(amounts: Seq<u64>) -> int
    decreases amounts.len(),
{
    if amounts.len() == 0 {
        0
    } else {
        total(amounts.drop_last()) + amounts.last()
    }
}

impl Deposit {
    /// The accounts after depositing the amounts one after the other, each
    /// with the address derived again for the caller.
    pub open spec fn after_each(self, amounts: Seq<u64>) -> Deposit
        decreases amounts.len(),
    {
        if amounts.len() == 0 {
            self
        } else {
            let before = self.after_each(amounts.drop_last());
            before.after(amounts.last(), rederived(before.vault, before.user.key))
        }
    }

    /// Whether each of the amounts, deposited one after the other, is accepted.
    pub open spec fn each_accepted(self, amounts: Seq<u64>) -> bool
        decreases amounts.len(),
    {
        amounts.len() == 0 || {
            let before = self.after_each(amounts.drop_last());
            &&& self.each_accepted(amounts.drop_last())
            &&& before.outcome(amounts.last(), rederived(before.vault, before.user.key)) is Ok
        }
    }
}

/// A vault that has been created belongs to the caller, holds nothing and
/// unlocks exactly `unlock_days` days after its creation; and whoever then
/// tries to create a vault in the same account, with whatever period and
/// whatever address found, is refused.
pub proof fn lemma_create_vault_once(
    ctx: CreateVault,
    unlock_days: u64,
    now: i64,
    found: Option<(Seq<u8>, u8)>,
    again: Wallet,
    again_days: u64,
    again_found: Option<(Seq<u8>, u8)>,
)
    requires
        lock_fits(now, unlock_days),
        ctx.outcome(unlock_days, found) is Ok,
    ensures
        valid_days(unlock_days),
        ({
            let made = ctx.after(unlock_days, now, found).vault;
            &&& found is Some
            &&& found.unwrap().0 == ctx.vault.key@
            &&& made.key == ctx.vault.key
            &&& made.data is Some
            &&& made.data.unwrap().owner == ctx.user.key
            &&& made.data.unwrap().balance == 0
            &&& made.data.unwrap().bump == found.unwrap().1
            &&& made.data.unwrap().unlock_time == now + unlock_days * 86_400
        }),
        (CreateVault { vault: ctx.after(unlock_days, now, found).vault, user: again }).outcome(
            again_days,
            again_found,
        ) is Err,
{
}

/// Where a vault exists, no vault can be created.
pub proof fn lemma_existing_vault_not_created(
    ctx: CreateVault,
    unlock_days: u64,
    now: i64,
    found: Option<(Seq<u8>, u8)>,
)
    requires
        ctx.vault.data is Some,
    ensures
        ctx.outcome(unlock_days, found) is Err,
        ctx.after(unlock_days, now, found) == ctx,
{
}

/// A deposit never removes a vault, moves it, or changes its owner, its
/// unlock time or its nonce; the balance does not shrink.
pub proof fn lemma_deposit_keeps_vault(ctx: Deposit, amount: u64, derived: Option<Seq<u8>>)
    requires
        ctx.vault.data is Some,
    ensures
        ({
            let before = ctx.vault.data.unwrap();
            let next = ctx.after(amount, derived);
            &&& next.vault.key == ctx.vault.key
            &&& next.user.key == ctx.user.key
            &&& next.vault.data matches Some(v)
            &&& v.owner == before.owner
            &&& v.unlock_time == before.unlock_time
            &&& v.bump == before.bump
            &&& v.balance >= before.balance
        }),
{
}

/// A withdrawal never removes a vault, moves it, or changes its owner, its
/// unlock time or its nonce; the balance stays as it is or becomes zero.
pub proof fn lemma_withdraw_keeps_vault(ctx: Withdraw, now: i64, derived: Option<Seq<u8>>)
    requires
        ctx.vault.data is Some,
    ensures
        ({
            let before = ctx.vault.data.unwrap();
            let next = ctx.after(now, derived);
            &&& next.vault.key == ctx.vault.key
            &&& next.user.key == ctx.user.key
            &&& next.vault.data matches Some(v)
            &&& v.owner == before.owner
            &&& v.unlock_time == before.unlock_time
            &&& v.bump == before.bump
            &&& (v.balance == before.balance || v.balance == 0)
        }),
{
}

/// An accepted deposit takes exactly `amount` from the caller's funds, adds
/// exactly `amount` to the funds in custody and to the balance.
pub proof fn lemma_deposit_moves_amount(ctx: Deposit, amount: u64, derived: Option<Seq<u8>>)
    requires
        ctx.outcome(amount, derived) is Ok,
    ensures
        ({
            let next = ctx.after(amount, derived);
            &&& amount > 0
            &&& ctx.vault.data is Some
            &&& next.vault.data is Some
            &&& next.vault.data.unwrap().balance == ctx.vault.data.unwrap().balance + amount
            &&& next.vault.lamports == ctx.vault.lamports + amount
            &&& next.user.lamports == ctx.user.lamports - amount
        }),
{
}

/// After deposits that were all accepted, the balance has grown by the sum of
/// the amounts: a vault that held nothing holds exactly their sum.
pub proof fn lemma_deposits_add_up(ctx: Deposit, amounts: Seq<u64>)
    requires
        ctx.vault.data is Some,
        ctx.each_accepted(amounts),
    ensures
        ctx.after_each(amounts).vault.data is Some,
        ctx.after_each(amounts).vault.data.unwrap().balance == ctx.vault.data.unwrap().balance
            + total(amounts),
    decreases amounts.len(),
{
    if amounts.len() > 0 {
        lemma_deposits_add_up(ctx, amounts.drop_last());
    }
}

/// A deposit that would take the balance beyond the largest `u64` is refused
/// and changes nothing. The refusal is `MathOverflow` whenever the amount is
/// not zero, the caller is the owner, the vault account lies at the derived
/// address and the funds could move.
pub proof fn lemma_deposit_overflow_refused(ctx: Deposit, amount: u64, derived: Option<Seq<u8>>)
    requires
        ctx.vault.data is Some,
        ctx.vault.data.unwrap().balance + amount > u64::MAX,
    ensures
        ctx.outcome(amount, derived) is Err,
        ctx.after(amount, derived) == ctx,
        ctx.outcome(amount, derived) == Err::<(), VaultError>(
            VaultError::Rule(LockItError::MathOverflow),
        ) <==> {
            &&& amount > 0
            &&& ctx.user.key@ == ctx.vault.data.unwrap().owner@
            &&& derived == Some(ctx.vault.key@)
            &&& moved(ctx.user.lamports, ctx.vault.lamports, amount) is Ok
        },
{
}

/// Before the unlock time the owner's withdrawal is refused with
/// `StillLocked`, and nothing changes.
pub proof fn lemma_withdraw_before_unlock(ctx: Withdraw, now: i64, derived: Option<Seq<u8>>)
    requires
        ctx.vault.data is Some,
        ctx.user.key@ == ctx.vault.data.unwrap().owner@,
        now < ctx.vault.data.unwrap().unlock_time,
    ensures
        ctx.outcome(now, derived) == Err::<u64, VaultError>(
            VaultError::Rule(LockItError::StillLocked),
        ),
        ctx.after(now, derived) == ctx,
{
}

/// From the unlock time on, the owner's withdrawal from a vault that holds
/// nothing is refused with `ZeroBalance`, and nothing changes.
pub proof fn lemma_withdraw_empty(ctx: Withdraw, now: i64, derived: Option<Seq<u8>>)
    requires
        ctx.vault.data is Some,
        ctx.user.key@ == ctx.vault.data.unwrap().owner@,
        now >= ctx.vault.data.unwrap().unlock_time,
        ctx.vault.data.unwrap().balance == 0,
    ensures
        ctx.outcome(now, derived) == Err::<u64, VaultError>(
            VaultError::Rule(LockItError::ZeroBalance),
        ),
        ctx.after(now, derived) == ctx,
{
}

/// From the unlock time on, the owner's withdrawal pays out the whole balance:
/// exactly that amount leaves custody and reaches the owner, and the balance
/// is zero. The vault then takes any deposit of the owner that is not zero
/// and that the owner's funds can pay.
pub proof fn lemma_withdraw_pays_all(ctx: Withdraw, now: i64, amount: u64)
    requires
        accounts_wf(ctx.vault, ctx.user),
        ctx.vault.data is Some,
        ctx.user.key@ == ctx.vault.data.unwrap().owner@,
        now >= ctx.vault.data.unwrap().unlock_time,
        ctx.vault.data.unwrap().balance > 0,
        0 < amount <= ctx.user.lamports + ctx.vault.data.unwrap().balance,
    ensures
        ({
            let paid = ctx.vault.data.unwrap().balance;
            let next = ctx.after(now, rederived(ctx.vault, ctx.user.key));
            let then = Deposit { vault: next.vault, user: next.user };
            &&& ctx.outcome(now, rederived(ctx.vault, ctx.user.key)) == Ok::<u64, VaultError>(paid)
            &&& next.vault.data is Some
            &&& next.vault.data.unwrap().balance == 0
            &&& next.vault.lamports == ctx.vault.lamports - paid
            &&& next.user.lamports == ctx.user.lamports + paid
            &&& then.outcome(amount, rederived(then.vault, then.user.key)) is Ok
        }),
{
}

/// A deposit by anyone but the owner is refused with `NotOwner` and changes
/// nothing. (A deposit of zero is refused for its amount before the caller is
/// looked at.)
pub proof fn lemma_deposit_only_by_owner(ctx: Deposit, amount: u64, derived: Option<Seq<u8>>)
    requires
        ctx.vault.data is Some,
        ctx.user.key@ != ctx.vault.data.unwrap().owner@,
        amount > 0,
    ensures
        ctx.outcome(amount, derived) == Err::<(), VaultError>(
            VaultError::Rule(LockItError::NotOwner),
        ),
        ctx.after(amount, derived) == ctx,
{
}

/// A withdrawal by anyone but the owner is refused with `NotOwner` and
/// changes nothing, whatever the time and the balance.
pub proof fn lemma_withdraw_only_by_owner(ctx: Withdraw, now: i64, derived: Option<Seq<u8>>)
    requires
        ctx.vault.data is Some,
        ctx.user.key@ != ctx.vault.data.unwrap().owner@,
    ensures
        ctx.outcome(now, derived) == Err::<u64, VaultError>(
            VaultError::Rule(LockItError::NotOwner),
        ),
        ctx.after(now, derived) == ctx,
{
}

/// Deposits keep well-formed accounts well formed, and the funds of the two
/// accounts together stay what they were.
pub proof fn lemma_deposit_keeps_accounts(ctx: Deposit, amount: u64, derived: Option<Seq<u8>>)
    requires
        accounts_wf(ctx.vault, ctx.user),
    ensures
        ({
            let next = ctx.after(amount, derived);
            &&& accounts_wf(next.vault, next.user)
            &&& next.vault.lamports + next.user.lamports == ctx.vault.lamports + ctx.user.lamports
        }),
{
}

/// Withdrawals keep well-formed accounts well formed, and the funds of the two
/// accounts together stay what they were.
pub proof fn lemma_withdraw_keeps_accounts(ctx: Withdraw, now: i64, derived: Option<Seq<u8>>)
    requires
        accounts_wf(ctx.vault, ctx.user),
    ensures
        ({
            let next = ctx.after(now, derived);
            &&& accounts_wf(next.vault, next.user)
            &&& next.vault.lamports + next.user.lamports == ctx.vault.lamports + ctx.user.lamports
        }),
{
}

/// On well-formed accounts, an operation of the owner is never refused for
/// the vault's address, for funds missing in custody or for funds that would
/// not fit: a deposit can only fail for a zero amount or for want of funds,
/// a withdrawal only because the vault is still locked or empty.
pub proof fn lemma_owner_on_well_formed_accounts(
    vault: VaultAccount,
    user: Wallet,
    amount: u64,
    now: i64,
)
    requires
        accounts_wf(vault, user),
        vault.data is Some,
        user.key@ == vault.data.unwrap().owner@,
    ensures
        ({
            let put = (Deposit { vault, user }).outcome(amount, rederived(vault, user.key));
            let take = (Withdraw { vault, user }).outcome(now, rederived(vault, user.key));
            let v = vault.data.unwrap();
            &&& put is Ok <==> 0 < amount <= user.lamports
            &&& amount == 0 ==> put == Err::<(), VaultError>(
                VaultError::Rule(LockItError::ZeroAmount),
            )
            &&& amount > user.lamports ==> put == Err::<(), VaultError>(
                VaultError::Account(AccountError::InsufficientFunds),
            )
            &&& take is Ok <==> now >= v.unlock_time && v.balance > 0
        }),
{
}

} // verus!
