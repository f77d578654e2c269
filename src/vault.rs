use vstd::prelude::*;

use crate::address::Address;
use crate::derivation::{
    authority_seeds, derive_address, Label, derived, program_address, salted, vault_seeds,
    verify_address,
};

verus! {

/// The record that binds an authority, an asset account and a time lock.
#[derive(Clone, Copy, Debug)]
pub struct Vault {
    /// The only identity that may act on the vault.
    pub authority: Address,
    /// The asset account that holds the vault's tokens.
    pub token_account: Address,
    /// Salt of the vault's own address.
    pub bump: u8,
    /// Salt of the delegate address that controls the asset account.
    pub authority_bump: u8,
    pub is_locked: bool,
    /// Seconds since the epoch; read only while `is_locked` holds.
    pub unlock_timestamp: i64,
}

#[derive(Clone, Copy, Debug, PartialEq, Eq, Structural)]
pub enum VaultError {
    AlreadyExists,
    AddressMismatch,
    UnauthorizedAccess,
    VaultStillLocked,
    InsufficientFunds,
    InvalidUnlockTime,
    TransferFailed,
    DerivationExhausted,
}

/// Who signs a token transfer.
#[derive(Clone, Copy, Debug)]
pub enum Authorizer {
    /// The caller's own signature.
    Signer(Address),
    /// The vault's delegate, proved by its seeds `[authority, vault, salt]`.
    Delegate { address: Address, vault: Address, salt: u8 },
}

/// A movement of tokens for the host to carry out.
#[derive(Clone, Copy, Debug)]
pub struct TokenTransfer {
    pub from: Address,
    pub to: Address,
    pub authorizer: Authorizer,
    pub amount: u64,
}

/// The addresses derived for the vault of one authority.
#[derive(Clone, Copy, Debug)]
pub struct VaultAddresses {
    pub vault: Address,
    pub vault_bump: u8,
    pub vault_authority: Address,
    pub authority_bump: u8,
}

/// What Initialize is given: the caller, whether the vault's address already
/// holds a record, and the asset account allocated for the vault with the
/// address that controls it.
#[derive(Clone, Copy, Debug)]
pub struct InitializeVault {
    pub payer: Address,
    pub vault_exists: bool,
    pub token_account: Address,
    pub token_account_owner: Address,
}

/// What Deposit is given.
#[derive(Clone, Copy, Debug)]
pub struct Deposit {
    pub vault_address: Address,
    pub vault: Vault,
    /// The caller.
    pub authority: Address,
    pub user_token_account: Address,
    /// The address that controls `user_token_account`.
    pub user_token_owner: Address,
    pub vault_token_account: Address,
}

/// What Withdraw is given, with the balance of the presented vault account.
#[derive(Clone, Copy, Debug)]
pub struct Withdraw {
    pub vault_address: Address,
    pub vault: Vault,
    pub vault_authority: Address,
    /// The caller.
    pub authority: Address,
    pub user_token_account: Address,
    /// The address that controls `user_token_account`.
    pub user_token_owner: Address,
    pub vault_token_account: Address,
    pub vault_balance: u64,
}

/// What Lock is given.
#[derive(Clone, Copy, Debug)]
pub struct LockVault {
    pub vault_address: Address,
    pub vault: Vault,
    /// The caller.
    pub authority: Address,
}

/// What Unlock is given.
#[derive(Clone, Copy, Debug)]
pub struct UnlockVault {
    pub vault_address: Address,
    pub vault: Vault,
    /// The caller.
    pub authority: Address,
}

pub open spec fn as_result(e: Option<VaultError>) -> Result<(), VaultError> {
    match e {
        Some(e) => Err(e),
        None => Ok(()),
    }
}

/// The first failing access check: the presented vault address must be the
/// caller's vault address under the recorded salt, then the caller must be
/// the recorded authority.
pub open spec fn access_error(program: Seq<u8>, vault_address: Seq<u8>, vault: Vault, caller: Seq<u8>) -> Option<VaultError> {
    if program_address(salted(vault_seeds(caller), vault.bump), program) != Some(vault_address) {
        Some(VaultError::AddressMismatch)
    } else if vault.authority@ != caller {
        Some(VaultError::UnauthorizedAccess)
    } else {
        None
    }
}

/// The vault and delegate addresses of `payer`, with their salts.
pub open spec fn vault_derivation(program: Seq<u8>, payer: Seq<u8>) -> Option<(Seq<u8>, u8, Seq<u8>, u8)> {
    match derived(vault_seeds(payer), program) {
        Some((v, vb)) => match derived(authority_seeds(v), program) {
            Some((a, ab)) => Some((v, vb, a, ab)),
            None => None,
        },
        None => None,
    }
}

/// Whether the derived addresses are those of `payer`.
pub open spec fn addresses_of(program: Seq<u8>, payer: Seq<u8>, a: VaultAddresses) -> bool {
    vault_derivation(program, payer) == Some((a.vault@, a.vault_bump, a.vault_authority@, a.authority_bump))
}

/// Whether the presented withdrawal accounts are those the vault records,
/// and the receiving account is the caller's.
pub open spec fn withdraw_accounts_error(program: Seq<u8>, ctx: Withdraw) -> Option<VaultError> {
    if program_address(salted(authority_seeds(ctx.vault_address@), ctx.vault.authority_bump), program)
        != Some(ctx.vault_authority@) {
        Some(VaultError::AddressMismatch)
    } else if ctx.user_token_owner@ != ctx.authority@ {
        Some(VaultError::AddressMismatch)
    } else if ctx.vault_token_account@ != ctx.vault.token_account@ {
        Some(VaultError::AddressMismatch)
    } else {
        None
    }
}

/// Whether the lock lets tokens out at `now`.
pub open spec fn lock_open(vault: Vault, now: i64) -> bool {
    !vault.is_locked || now >= vault.unlock_timestamp
}

pub open spec fn deposit_transfer(ctx: Deposit, amount: u64) -> TokenTransfer {
    TokenTransfer {
        from: ctx.user_token_account,
        to: ctx.vault_token_account,
        authorizer: Authorizer::Signer(ctx.authority),
        amount,
    }
}

pub open spec fn withdraw_transfer(ctx: Withdraw, amount: u64) -> TokenTransfer {
    TokenTransfer {
        from: ctx.vault_token_account,
        to: ctx.user_token_account,
        authorizer: Authorizer::Delegate {
            address: ctx.vault_authority,
            vault: ctx.vault_address,
            salt: ctx.vault.authority_bump,
        },
        amount,
    }
}

/// The outcome of Deposit.
pub open spec fn deposit_outcome(program: Seq<u8>, ctx: Deposit, amount: u64) -> Result<TokenTransfer, VaultError> {
    match access_error(program, ctx.vault_address@, ctx.vault, ctx.authority@) {
        Some(e) => Err(e),
        None => if ctx.user_token_owner@ != ctx.authority@ {
            Err(VaultError::AddressMismatch)
        } else if ctx.vault_token_account@ != ctx.vault.token_account@ {
            Err(VaultError::AddressMismatch)
        } else {
            Ok(deposit_transfer(ctx, amount))
        },
    }
}

/// The outcome of Withdraw at time `now`.
pub open spec fn withdraw_outcome(program: Seq<u8>, ctx: Withdraw, amount: u64, now: i64) -> Result<TokenTransfer, VaultError> {
    match access_error(program, ctx.vault_address@, ctx.vault, ctx.authority@) {
        Some(e) => Err(e),
        None => match withdraw_accounts_error(program, ctx) {
            Some(e) => Err(e),
            None => if !lock_open(ctx.vault, now) {
                Err(VaultError::VaultStillLocked)
            } else if (ctx.vault_balance as int) < (amount as int) {
                Err(VaultError::InsufficientFunds)
            } else {
                Ok(withdraw_transfer(ctx, amount))
            },
        },
    }
}

/// The error of Lock, if any: the new deadline must lie after `now`, and a
/// lock whose deadline is still ahead cannot be replaced, so it cannot be
/// cut short.
pub open spec fn lock_error(program: Seq<u8>, ctx: LockVault, unlock_timestamp: i64, now: i64) -> Option<VaultError> {
    match access_error(program, ctx.vault_address@, ctx.vault, ctx.authority@) {
        Some(e) => Some(e),
        None => if unlock_timestamp <= now {
            Some(VaultError::InvalidUnlockTime)
        } else if !lock_open(ctx.vault, now) {
            Some(VaultError::VaultStillLocked)
        } else {
            None
        },
    }
}

/// The vault after Lock: locked until `unlock_timestamp` when Lock succeeds,
/// untouched when it fails.
pub open spec fn locked_vault(program: Seq<u8>, ctx: LockVault, unlock_timestamp: i64, now: i64) -> Vault {
    if lock_error(program, ctx, unlock_timestamp, now) is None {
        Vault { is_locked: true, unlock_timestamp, ..ctx.vault }
    } else {
        ctx.vault
    }
}

/// The error of Unlock, if any.
pub open spec fn unlock_error(program: Seq<u8>, ctx: UnlockVault, now: i64) -> Option<VaultError> {
    match access_error(program, ctx.vault_address@, ctx.vault, ctx.authority@) {
        Some(e) => Some(e),
        None => if now < ctx.vault.unlock_timestamp {
            Some(VaultError::VaultStillLocked)
        } else {
            None
        },
    }
}

/// The vault after Unlock: unlocked with the deadline reset when Unlock
/// succeeds, untouched when it fails.
pub open spec fn unlocked_vault(program: Seq<u8>, ctx: UnlockVault, now: i64) -> Vault {
    if unlock_error(program, ctx, now) is None {
        Vault { is_locked: false, unlock_timestamp: 0, ..ctx.vault }
    } else {
        ctx.vault
    }
}

/// The access check of every mutating instruction.
pub fn check_access(program: &Address, vault_address: &Address, vault: &Vault, caller: &Address) -> (r: Result<(), VaultError>)
    ensures
        r == as_result(access_error(program@, vault_address@, *vault, caller@)),
{
    if !verify_address(program, Label::Vault, caller, vault.bump, vault_address) {
        return Err(VaultError::AddressMismatch);
    }
    if !vault.authority.same_as(caller) {
        return Err(VaultError::UnauthorizedAccess);
    }
    Ok(())
}

/// Derives the vault address of `payer` and the address of the delegate
/// that controls the vault's asset account.
pub fn derive_vault_addresses(program: &Address, payer: &Address) -> (r: Result<VaultAddresses, VaultError>)
    ensures
        match r {
            Ok(a) => addresses_of(program@, payer@, a),
            Err(e) => e == VaultError::DerivationExhausted && vault_derivation(program@, payer@) is None,
        },
{
    match derive_address(program, Label::Vault, payer) {
        None => Err(VaultError::DerivationExhausted),
        Some((vault, vault_bump)) => match derive_address(program, Label::Authority, &vault) {
            None => Err(VaultError::DerivationExhausted),
            Some((vault_authority, authority_bump)) => Ok(
                VaultAddresses { vault, vault_bump, vault_authority, authority_bump },
            ),
        },
    }
}

} // verus!
