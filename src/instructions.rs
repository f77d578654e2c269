use vstd::prelude::*;

use crate::address::Address;
use crate::derivation::{verify_address, Label};
use crate::vault::{
    access_error, addresses_of, as_result, deposit_outcome, derive_vault_addresses,
    check_access, lock_error, locked_vault, unlock_error, unlocked_vault, vault_derivation,
    withdraw_outcome, Authorizer, Deposit, InitializeVault, LockVault, TokenTransfer, UnlockVault,
    Vault, VaultAddresses, VaultError, Withdraw,
};

verus! {

/// Withdraw: after the access checks, the delegate address must be the
/// recorded one, the receiving account must be the caller's, and the vault's
/// asset account must be the recorded one; the lock must be open at `now`
/// (an expired lock lets tokens out without being cleared) and the vault
/// must hold `amount`. On success, the transfer out of the vault, signed by
/// the delegate.
pub fn withdraw(program: &Address, ctx: &Withdraw, amount: u64, now: i64) -> (r: Result<TokenTransfer, VaultError>)
    ensures
        r == withdraw_outcome(program@, *ctx, amount, now),
{
    check_access(program, &ctx.vault_address, &ctx.vault, &ctx.authority)?;
    if !verify_address(program, Label::Authority, &ctx.vault_address, ctx.vault.authority_bump, &ctx.vault_authority) {
        return Err(VaultError::AddressMismatch);
    }
    if !ctx.user_token_owner.same_as(&ctx.authority) {
        return Err(VaultError::AddressMismatch);
    }
    if !ctx.vault_token_account.same_as(&ctx.vault.token_account) {
        return Err(VaultError::AddressMismatch);
    }
    if !(!ctx.vault.is_locked || now >= ctx.vault.unlock_timestamp) {
        return Err(VaultError::VaultStillLocked);
    }
    if ctx.vault_balance < amount {
        return Err(VaultError::InsufficientFunds);
    }
    Ok(TokenTransfer {
        from: ctx.vault_token_account,
        to: ctx.user_token_account,
        authorizer: Authorizer::Delegate {
            address: ctx.vault_authority,
            vault: ctx.vault_address,
            salt: ctx.vault.authority_bump,
        },
        amount,
    })
}

/// Initialize: derives the caller's vault and delegate addresses, refuses an
/// occupied vault address, and requires the allocated asset account to be
/// controlled by the delegate. On success, the addresses and a new unlocked
/// vault bound to the caller and that account.
pub fn initialize_vault(program: &Address, ctx: &InitializeVault) -> (r: Result<(VaultAddresses, Vault), VaultError>)
    ensures
        vault_derivation(program@, ctx.payer@) is None <==> r == Err::<(VaultAddresses, Vault), VaultError>(VaultError::DerivationExhausted),
        vault_derivation(program@, ctx.payer@) is Some && ctx.vault_exists
            <==> r == Err::<(VaultAddresses, Vault), VaultError>(VaultError::AlreadyExists),
        vault_derivation(program@, ctx.payer@) is Some && !ctx.vault_exists
            && vault_derivation(program@, ctx.payer@).unwrap().2 != ctx.token_account_owner@
            <==> r == Err::<(VaultAddresses, Vault), VaultError>(VaultError::AddressMismatch),
        match r {
            Ok((a, v)) => {
                &&& addresses_of(program@, ctx.payer@, a)
                &&& !ctx.vault_exists
                &&& a.vault_authority@ == ctx.token_account_owner@
                &&& v == Vault {
                    authority: ctx.payer,
                    token_account: ctx.token_account,
                    bump: a.vault_bump,
                    authority_bump: a.authority_bump,
                    is_locked: false,
                    unlock_timestamp: 0,
                }
            },
            Err(e) => e == VaultError::DerivationExhausted || e == VaultError::AlreadyExists
                || e == VaultError::AddressMismatch,
        },
{
    let addresses = derive_vault_addresses(program, &ctx.payer)?;
    if ctx.vault_exists {
        return Err(VaultError::AlreadyExists);
    }
    if !addresses.vault_authority.same_as(&ctx.token_account_owner) {
        return Err(VaultError::AddressMismatch);
    }
    let vault = Vault {
        authority: ctx.payer,
        token_account: ctx.token_account,
        bump: addresses.vault_bump,
        authority_bump: addresses.authority_bump,
        is_locked: false,
        unlock_timestamp: 0,
    };
    Ok((addresses, vault))
}

/// Deposit: after the access checks, the paying account must be the
/// caller's and the presented vault account must be the recorded one. On success, the transfer from the caller's account into the
/// vault, signed by the caller.
pub fn deposit(program: &Address, ctx: &Deposit, amount: u64) -> (r: Result<TokenTransfer, VaultError>)
    ensures
        r == deposit_outcome(program@, *ctx, amount),
{
    check_access(program, &ctx.vault_address, &ctx.vault, &ctx.authority)?;
    if !ctx.user_token_owner.same_as(&ctx.authority) {
        return Err(VaultError::AddressMismatch);
    }
    if !ctx.vault_token_account.same_as(&ctx.vault.token_account) {
        return Err(VaultError::AddressMismatch);
    }
    Ok(TokenTransfer {
        from: ctx.user_token_account,
        to: ctx.vault_token_account,
        authorizer: Authorizer::Signer(ctx.authority),
        amount,
    })
}

/// Lock: after the access checks, locks the vault until `unlock_timestamp`,
/// which must lie after `now`. Then a lock whose deadline is still ahead is
/// refused and kept as it is.
pub fn lock_vault(program: &Address, ctx: &mut LockVault, unlock_timestamp: i64, now: i64) -> (r: Result<(), VaultError>)
    ensures
        r == as_result(lock_error(program@, *old(ctx), unlock_timestamp, now)),
        *final(ctx) == (LockVault { vault: locked_vault(program@, *old(ctx), unlock_timestamp, now), ..*old(ctx) }),
        r is Ok ==> unlock_timestamp > now,
        access_error(program@, old(ctx).vault_address@, old(ctx).vault, old(ctx).authority@) is None
            && unlock_timestamp > now && old(ctx).vault.is_locked && now < old(ctx).vault.unlock_timestamp
            ==> r == Err::<(), VaultError>(VaultError::VaultStillLocked) && *final(ctx) == *old(ctx),
{
    check_access(program, &ctx.vault_address, &ctx.vault, &ctx.authority)?;
    if unlock_timestamp <= now {
        return Err(VaultError::InvalidUnlockTime);
    }
    if ctx.vault.is_locked && now < ctx.vault.unlock_timestamp {
        return Err(VaultError::VaultStillLocked);
    }
    ctx.vault.is_locked = true;
    ctx.vault.unlock_timestamp = unlock_timestamp;
    Ok(())
}

/// Unlock: after the access checks, clears the lock and its deadline once
/// `now` has reached the deadline.
pub fn unlock_vault(program: &Address, ctx: &mut UnlockVault, now: i64) -> (r: Result<(), VaultError>)
    ensures
        r == as_result(unlock_error(program@, *old(ctx), now)),
        *final(ctx) == (UnlockVault { vault: unlocked_vault(program@, *old(ctx), now), ..*old(ctx) }),
        r is Ok ==> now >= old(ctx).vault.unlock_timestamp,
{
    check_access(program, &ctx.vault_address, &ctx.vault, &ctx.authority)?;
    if now < ctx.vault.unlock_timestamp {
        return Err(VaultError::VaultStillLocked);
    }
    ctx.vault.is_locked = false;
    ctx.vault.unlock_timestamp = 0;
    Ok(())
}

} // verus!
