use vstd::prelude::*;

use crate::address::Address;
use crate::derivation::{
    authority_seeds, derived, program_address, salt_search, salted, vault_seeds,
};
use crate::vault::{
    access_error, deposit_outcome, deposit_transfer, lock_error, lock_open, locked_vault,
    unlock_error, unlocked_vault, vault_derivation, withdraw_accounts_error, withdraw_outcome,
    withdraw_transfer, Deposit, LockVault, TokenTransfer, UnlockVault, Vault, VaultError,
    Withdraw,
};

verus! {

/// One instruction applied to a stored vault, with the inputs it is given
/// besides the vault and its address.
pub enum Instruction {
    Deposit { caller: Address, user_token_account: Address, vault_token_account: Address, amount: u64 },
    Withdraw {
        caller: Address,
        vault_authority: Address,
        user_token_account: Address,
        vault_token_account: Address,
        vault_balance: u64,
        amount: u64,
        now: i64,
    },
    Lock { caller: Address, unlock_timestamp: i64, now: i64 },
    Unlock { caller: Address, now: i64 },
}

/// The stored vault after one instruction. Deposit and Withdraw read the
/// record and never write it; Lock and Unlock write what their contracts say.
pub open spec fn apply(program: Seq<u8>, vault_address: Address, v: Vault, op: Instruction) -> Vault {
    match op {
        Instruction::Deposit { .. } => v,
        Instruction::Withdraw { .. } => v,
        Instruction::Lock { caller, unlock_timestamp, now } => locked_vault(
            program,
            LockVault { vault_address, vault: v, authority: caller },
            unlock_timestamp,
            now,
        ),
        Instruction::Unlock { caller, now } => unlocked_vault(
            program,
            UnlockVault { vault_address, vault: v, authority: caller },
            now,
        ),
    }
}

/// The stored vault after a sequence of instructions.
pub open spec fn run(program: Seq<u8>, vault_address: Address, v: Vault, ops: Seq<Instruction>) -> Vault
    decreases ops.len(),
{
    if ops.len() == 0 {
        v
    } else {
        apply(program, vault_address, run(program, vault_address, v, ops.drop_last()), ops.last())
    }
}

/// The balance of `account` once the transfer `t` has been carried out.
pub open spec fn balance_after(balance: int, account: Seq<u8>, t: TokenTransfer) -> int {
    if t.from@ == t.to@ {
        balance
    } else if t.to@ == account {
        balance + t.amount
    } else if t.from@ == account {
        balance - t.amount
    } else {
        balance
    }
}

proof fn lemma_salt_search_verifies(seeds: Seq<Seq<u8>>, program: Seq<u8>, n: nat)
    ensures
        match salt_search(seeds, program, n) {
            Some((a, salt)) => program_address(salted(seeds, salt), program) == Some(a),
            None => true,
        },
    decreases n,
{
    if n > 0 {
        lemma_salt_search_verifies(seeds, program, (n - 1) as nat);
    }
}

/// The salt found with an address is a proof of it: the seeds with that salt
/// recompute the same address. (That equal authorities get equal addresses
/// holds because the derivation is a spec function of the authority and the
/// program alone.)
pub proof fn address_determinism(program: Seq<u8>, a: Seq<u8>)
    ensures
        match derived(vault_seeds(a), program) {
            Some((v, salt)) => program_address(salted(vault_seeds(a), salt), program) == Some(v),
            None => true,
        },
{
    lemma_salt_search_verifies(vault_seeds(a), program, 255);
}

/// A vault recorded as Initialize records it passes the access checks of its
/// own authority: presented at the address derived from the authority, with
/// the salt of that derivation, the caller that is the recorded authority is
/// let through.
pub proof fn derived_vault_passes_access(program: Seq<u8>, vault_address: Seq<u8>, vault: Vault, caller: Seq<u8>)
    requires
        derived(vault_seeds(caller), program) == Some((vault_address, vault.bump)),
        vault.authority@ == caller,
    ensures
        access_error(program, vault_address, vault, caller) is None,
{
    lemma_salt_search_verifies(vault_seeds(caller), program, 255);
}

/// Withdraw's account checks pass when the presented delegate is the one
/// derived from the vault address with the recorded salt, the receiving
/// account belongs to the caller and the vault account is the recorded one.
pub proof fn derived_delegate_passes_withdraw_checks(program: Seq<u8>, ctx: Withdraw)
    requires
        derived(authority_seeds(ctx.vault_address@), program) == Some((ctx.vault_authority@, ctx.vault.authority_bump)),
        ctx.user_token_owner@ == ctx.authority@,
        ctx.vault_token_account@ == ctx.vault.token_account@,
    ensures
        withdraw_accounts_error(program, ctx) is None,
{
    lemma_salt_search_verifies(authority_seeds(ctx.vault_address@), program, 255);
}

/// No sequence of instructions changes a vault's authority or asset account.
pub proof fn identity_fields_fixed(program: Seq<u8>, vault_address: Address, v: Vault, ops: Seq<Instruction>)
    ensures
        run(program, vault_address, v, ops).authority == v.authority,
        run(program, vault_address, v, ops).token_account == v.token_account,
    decreases ops.len(),
{
    if ops.len() > 0 {
        identity_fields_fixed(program, vault_address, v, ops.drop_last());
    }
}

/// Lock succeeds only with a deadline after the current time and never while
/// a lock's deadline is still ahead: once the caller has passed the access
/// checks, a deadline not after the current time is refused, and a running
/// lock is refused and kept, so it cannot be cut short.
/// Unlock succeeds only once the current time has reached the deadline.
pub proof fn lock_deadline_guard(program: Seq<u8>, lock: LockVault, unlock_timestamp: i64, unlock: UnlockVault, now: i64)
    ensures
        lock_error(program, lock, unlock_timestamp, now) is None ==> unlock_timestamp > now
            && lock_open(lock.vault, now),
        access_error(program, lock.vault_address@, lock.vault, lock.authority@) is None
            && unlock_timestamp > now && lock.vault.is_locked && now < lock.vault.unlock_timestamp
            ==> lock_error(program, lock, unlock_timestamp, now) == Some(VaultError::VaultStillLocked)
            && locked_vault(program, lock, unlock_timestamp, now) == lock.vault,
        access_error(program, lock.vault_address@, lock.vault, lock.authority@) is None
            && unlock_timestamp <= now ==> lock_error(program, lock, unlock_timestamp, now)
            == Some(VaultError::InvalidUnlockTime) && locked_vault(program, lock, unlock_timestamp, now) == lock.vault,
        unlock_error(program, unlock, now) is None ==> now >= unlock.vault.unlock_timestamp,
        access_error(program, unlock.vault_address@, unlock.vault, unlock.authority@) is None
            ==> (unlock_error(program, unlock, now) is None <==> now >= unlock.vault.unlock_timestamp),
        access_error(program, unlock.vault_address@, unlock.vault, unlock.authority@) is None
            && now < unlock.vault.unlock_timestamp ==> unlock_error(program, unlock, now)
            == Some(VaultError::VaultStillLocked),
{
}

/// A lock whose deadline has passed lets a withdrawal through without an
/// Unlock, and the vault still reads locked afterwards.
pub proof fn expired_lock_withdraw(program: Seq<u8>, ctx: Withdraw, amount: u64, now: i64)
    requires
        ctx.vault.is_locked,
        now >= ctx.vault.unlock_timestamp,
        access_error(program, ctx.vault_address@, ctx.vault, ctx.authority@) is None,
        withdraw_accounts_error(program, ctx) is None,
        amount <= ctx.vault_balance,
    ensures
        withdraw_outcome(program, ctx, amount, now) == Ok::<TokenTransfer, VaultError>(withdraw_transfer(ctx, amount)),
        apply(
            program,
            ctx.vault_address,
            ctx.vault,
            Instruction::Withdraw {
                caller: ctx.authority,
                vault_authority: ctx.vault_authority,
                user_token_account: ctx.user_token_account,
                vault_token_account: ctx.vault_token_account,
                vault_balance: ctx.vault_balance,
                amount,
                now,
            },
        ).is_locked,
{
}

/// A deposit of `d` into an empty vault followed by a withdrawal of `w`,
/// both successful, leaves `d - w` in the vault's account, and `w <= d`.
pub proof fn balance_conservation(program: Seq<u8>, dep: Deposit, d: u64, wd: Withdraw, w: u64, now: i64)
    requires
        deposit_outcome(program, dep, d) is Ok,
        dep.user_token_account@ != dep.vault_token_account@,
        wd.vault_token_account@ == dep.vault_token_account@,
        wd.user_token_account@ != wd.vault_token_account@,
        wd.vault_balance as int == balance_after(0, dep.vault_token_account@, deposit_transfer(dep, d)),
        withdraw_outcome(program, wd, w, now) is Ok,
    ensures
        w <= d,
        balance_after(
            balance_after(0, dep.vault_token_account@, deposit_transfer(dep, d)),
            dep.vault_token_account@,
            withdraw_transfer(wd, w),
        ) == d - w,
{
}

/// A withdrawal beyond the vault's balance, once the access checks pass and
/// the lock is open, fails for want of funds and moves nothing.
pub proof fn overdraw_refused(program: Seq<u8>, ctx: Withdraw, amount: u64, now: i64)
    requires
        amount > ctx.vault_balance,
        access_error(program, ctx.vault_address@, ctx.vault, ctx.authority@) is None,
        withdraw_accounts_error(program, ctx) is None,
        lock_open(ctx.vault, now),
    ensures
        withdraw_outcome(program, ctx, amount, now) == Err::<TokenTransfer, VaultError>(VaultError::InsufficientFunds),
{
}

/// A caller other than the recorded authority is refused by every mutating
/// instruction, and the record is left as it was. Where the presented vault
/// address is the caller's own, the refusal is `UnauthorizedAccess`.
pub proof fn foreign_caller_refused(
    program: Seq<u8>,
    dep: Deposit,
    d: u64,
    wd: Withdraw,
    w: u64,
    lock: LockVault,
    unlock_timestamp: i64,
    unlock: UnlockVault,
    now: i64,
)
    requires
        dep.authority@ != dep.vault.authority@,
        wd.authority@ != wd.vault.authority@,
        lock.authority@ != lock.vault.authority@,
        unlock.authority@ != unlock.vault.authority@,
    ensures
        deposit_outcome(program, dep, d) is Err,
        withdraw_outcome(program, wd, w, now) is Err,
        lock_error(program, lock, unlock_timestamp, now) is Some,
        locked_vault(program, lock, unlock_timestamp, now) == lock.vault,
        unlock_error(program, unlock, now) is Some,
        unlocked_vault(program, unlock, now) == unlock.vault,
        program_address(salted(vault_seeds(dep.authority@), dep.vault.bump), program) == Some(dep.vault_address@)
            ==> deposit_outcome(program, dep, d) == Err::<TokenTransfer, VaultError>(VaultError::UnauthorizedAccess),
        program_address(salted(vault_seeds(wd.authority@), wd.vault.bump), program) == Some(wd.vault_address@)
            ==> withdraw_outcome(program, wd, w, now) == Err::<TokenTransfer, VaultError>(VaultError::UnauthorizedAccess),
        program_address(salted(vault_seeds(lock.authority@), lock.vault.bump), program) == Some(lock.vault_address@)
            ==> lock_error(program, lock, unlock_timestamp, now) == Some(VaultError::UnauthorizedAccess),
        program_address(salted(vault_seeds(unlock.authority@), unlock.vault.bump), program) == Some(unlock.vault_address@)
            ==> unlock_error(program, unlock, now) == Some(VaultError::UnauthorizedAccess),
{
}

} // verus!
