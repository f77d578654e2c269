use token_vault::derivation::{derive_address, signer_seeds, verify_address, Label};
use token_vault::vault::{check_access, derive_vault_addresses, Authorizer, TokenTransfer, VaultAddresses};
use token_vault::{
    deposit, initialize_vault, lock_vault, unlock_vault, withdraw, Address, Deposit, InitializeVault,
    LockVault, UnlockVault, Vault, VaultError, Withdraw,
};

const NOW: i64 = 1_700_000_000;

fn program() -> Address {
    Address::new([7u8; 32])
}

fn key(b: u8) -> Address {
    Address::new([b; 32])
}

struct Setup {
    addrs: VaultAddresses,
    vault: Vault,
}

fn setup(payer: u8) -> Setup {
    let p = program();
    let addrs = derive_vault_addresses(&p, &key(payer)).unwrap();
    let ctx = InitializeVault {
        payer: key(payer),
        vault_exists: false,
        token_account: key(200),
        token_account_owner: addrs.vault_authority,
    };
    let (addrs, vault) = initialize_vault(&p, &ctx).unwrap();
    Setup { addrs, vault }
}

fn deposit_ctx(s: &Setup, caller: u8) -> Deposit {
    Deposit {
        vault_address: s.addrs.vault,
        vault: s.vault,
        authority: key(caller),
        user_token_account: key(100),
        user_token_owner: key(caller),
        vault_token_account: s.vault.token_account,
    }
}

fn withdraw_ctx(s: &Setup, vault: Vault, caller: u8, balance: u64) -> Withdraw {
    Withdraw {
        vault_address: s.addrs.vault,
        vault,
        vault_authority: s.addrs.vault_authority,
        authority: key(caller),
        user_token_account: key(100),
        user_token_owner: key(caller),
        vault_token_account: vault.token_account,
        vault_balance: balance,
    }
}

fn settle(balance: u64, account: &Address, t: &TokenTransfer) -> u64 {
    if t.from == t.to {
        balance
    } else if t.to == *account {
        balance + t.amount
    } else if t.from == *account {
        balance - t.amount
    } else {
        balance
    }
}

#[test]
fn derivation_is_deterministic_and_verifiable() {
    let p = program();
    let a = derive_address(&p, Label::Vault, &key(1)).unwrap();
    let b = derive_address(&p, Label::Vault, &key(1)).unwrap();
    assert_eq!(a.0, b.0);
    assert_eq!(a.1, b.1);
    assert_ne!(a.0, key(1));
    assert_ne!(a.0, p);
    assert!(verify_address(&p, Label::Vault, &key(1), a.1, &a.0));
    assert!(!verify_address(&p, Label::Vault, &key(2), a.1, &a.0));
    assert!(!verify_address(&p, Label::Authority, &key(1), a.1, &a.0));
}

#[test]
fn distinct_authorities_get_distinct_vaults() {
    let p = program();
    let a = derive_vault_addresses(&p, &key(1)).unwrap();
    let b = derive_vault_addresses(&p, &key(2)).unwrap();
    assert_ne!(a.vault, b.vault);
    assert_ne!(a.vault_authority, b.vault_authority);
    assert_ne!(a.vault, a.vault_authority);
}

#[test]
fn initialize_binds_caller_and_account() {
    let s = setup(1);
    assert_eq!(s.vault.authority, key(1));
    assert_eq!(s.vault.token_account, key(200));
    assert!(!s.vault.is_locked);
    assert_eq!(s.vault.unlock_timestamp, 0);
    assert_eq!(s.vault.bump, s.addrs.vault_bump);
    assert_eq!(s.vault.authority_bump, s.addrs.authority_bump);
    assert!(verify_address(&program(), Label::Vault, &key(1), s.vault.bump, &s.addrs.vault));
    assert!(verify_address(&program(), Label::Authority, &s.addrs.vault, s.vault.authority_bump, &s.addrs.vault_authority));
}

#[test]
fn initialize_refuses_occupied_address() {
    let p = program();
    let addrs = derive_vault_addresses(&p, &key(1)).unwrap();
    let ctx = InitializeVault {
        payer: key(1),
        vault_exists: true,
        token_account: key(200),
        token_account_owner: addrs.vault_authority,
    };
    assert_eq!(initialize_vault(&p, &ctx).unwrap_err(), VaultError::AlreadyExists);
}

#[test]
fn initialize_refuses_account_held_by_a_person() {
    let ctx = InitializeVault {
        payer: key(1),
        vault_exists: false,
        token_account: key(200),
        token_account_owner: key(1),
    };
    assert_eq!(initialize_vault(&program(), &ctx).unwrap_err(), VaultError::AddressMismatch);
}

#[test]
fn deposit_moves_from_caller_to_vault() {
    let s = setup(1);
    let t = deposit(&program(), &deposit_ctx(&s, 1), 100).unwrap();
    assert_eq!(t.from, key(100));
    assert_eq!(t.to, key(200));
    assert_eq!(t.amount, 100);
    match t.authorizer {
        Authorizer::Signer(a) => assert_eq!(a, key(1)),
        Authorizer::Delegate { .. } => panic!("deposit is signed by the caller"),
    }
}

#[test]
fn deposit_refuses_other_vault_account() {
    let s = setup(1);
    let mut ctx = deposit_ctx(&s, 1);
    ctx.vault_token_account = key(201);
    assert_eq!(deposit(&program(), &ctx, 100).unwrap_err(), VaultError::AddressMismatch);
}

#[test]
fn foreign_caller_at_true_address_is_refused() {
    let s = setup(1);
    assert_eq!(deposit(&program(), &deposit_ctx(&s, 2), 10).unwrap_err(), VaultError::AddressMismatch);
    let mut lock = LockVault { vault_address: s.addrs.vault, vault: s.vault, authority: key(2) };
    assert!(lock_vault(&program(), &mut lock, NOW + 100, NOW).is_err());
    assert_eq!(lock.vault.is_locked, s.vault.is_locked);
    assert_eq!(lock.vault.unlock_timestamp, s.vault.unlock_timestamp);
}

#[test]
fn foreign_caller_at_own_address_is_unauthorized() {
    // A record that names authority 1 presented at the vault address of caller 2.
    let p = program();
    let own = derive_vault_addresses(&p, &key(2)).unwrap();
    let mut v = setup(1).vault;
    v.bump = own.vault_bump;
    v.is_locked = true;
    v.unlock_timestamp = NOW - 10;
    let before = v;
    assert_eq!(check_access(&p, &own.vault, &v, &key(2)).unwrap_err(), VaultError::UnauthorizedAccess);
    let dep = Deposit {
        vault_address: own.vault,
        vault: v,
        authority: key(2),
        user_token_account: key(100),
        user_token_owner: key(2),
        vault_token_account: v.token_account,
    };
    assert_eq!(deposit(&p, &dep, 10).unwrap_err(), VaultError::UnauthorizedAccess);
    let wd = Withdraw {
        vault_address: own.vault,
        vault: v,
        vault_authority: own.vault_authority,
        authority: key(2),
        user_token_account: key(100),
        user_token_owner: key(2),
        vault_token_account: v.token_account,
        vault_balance: 1000,
    };
    assert_eq!(withdraw(&p, &wd, 10, NOW).unwrap_err(), VaultError::UnauthorizedAccess);
    let mut lock = LockVault { vault_address: own.vault, vault: v, authority: key(2) };
    assert_eq!(lock_vault(&p, &mut lock, NOW + 100, NOW).unwrap_err(), VaultError::UnauthorizedAccess);
    let mut unlock = UnlockVault { vault_address: own.vault, vault: v, authority: key(2) };
    assert_eq!(unlock_vault(&p, &mut unlock, NOW).unwrap_err(), VaultError::UnauthorizedAccess);
    for after in [lock.vault, unlock.vault] {
        assert_eq!(after.authority, before.authority);
        assert_eq!(after.token_account, before.token_account);
        assert_eq!(after.bump, before.bump);
        assert_eq!(after.authority_bump, before.authority_bump);
        assert_eq!(after.is_locked, before.is_locked);
        assert_eq!(after.unlock_timestamp, before.unlock_timestamp);
    }
}

#[test]
fn lock_needs_future_deadline() {
    let s = setup(1);
    let mut ctx = LockVault { vault_address: s.addrs.vault, vault: s.vault, authority: key(1) };
    assert_eq!(lock_vault(&program(), &mut ctx, NOW - 1, NOW).unwrap_err(), VaultError::InvalidUnlockTime);
    assert_eq!(lock_vault(&program(), &mut ctx, NOW, NOW).unwrap_err(), VaultError::InvalidUnlockTime);
    assert!(!ctx.vault.is_locked);
    assert_eq!(lock_vault(&program(), &mut ctx, NOW + 100, NOW), Ok(()));
    assert!(ctx.vault.is_locked);
    assert_eq!(ctx.vault.unlock_timestamp, NOW + 100);
    assert_eq!(ctx.vault.authority, key(1));
}

#[test]
fn unlock_waits_for_deadline() {
    let s = setup(1);
    let mut v = s.vault;
    v.is_locked = true;
    v.unlock_timestamp = NOW + 100;
    let mut ctx = UnlockVault { vault_address: s.addrs.vault, vault: v, authority: key(1) };
    assert_eq!(unlock_vault(&program(), &mut ctx, NOW + 99).unwrap_err(), VaultError::VaultStillLocked);
    assert!(ctx.vault.is_locked);
    assert_eq!(unlock_vault(&program(), &mut ctx, NOW + 100), Ok(()));
    assert!(!ctx.vault.is_locked);
    assert_eq!(ctx.vault.unlock_timestamp, 0);
}

#[test]
fn expired_lock_lets_withdraw_through() {
    let s = setup(1);
    let mut v = s.vault;
    v.is_locked = true;
    v.unlock_timestamp = NOW;
    let ctx = withdraw_ctx(&s, v, 1, 80);
    let t = withdraw(&program(), &ctx, 30, NOW).unwrap();
    assert_eq!(t.from, key(200));
    assert_eq!(t.to, key(100));
    assert_eq!(t.amount, 30);
    match t.authorizer {
        Authorizer::Delegate { address, vault, salt } => {
            assert_eq!(address, s.addrs.vault_authority);
            assert_eq!(vault, s.addrs.vault);
            assert_eq!(salt, s.addrs.authority_bump);
        }
        Authorizer::Signer(_) => panic!("withdraw is signed by the delegate"),
    }
    assert!(ctx.vault.is_locked);
}

#[test]
fn withdraw_refuses_overdraw() {
    let s = setup(1);
    let ctx = withdraw_ctx(&s, s.vault, 1, 40);
    assert_eq!(withdraw(&program(), &ctx, 41, NOW).unwrap_err(), VaultError::InsufficientFunds);
    assert_eq!(withdraw(&program(), &ctx, 40, NOW).unwrap().amount, 40);
}

#[test]
fn withdraw_refuses_wrong_delegate_or_account() {
    let s = setup(1);
    let mut ctx = withdraw_ctx(&s, s.vault, 1, 40);
    ctx.vault_authority = key(9);
    assert_eq!(withdraw(&program(), &ctx, 1, NOW).unwrap_err(), VaultError::AddressMismatch);
    let mut ctx = withdraw_ctx(&s, s.vault, 1, 40);
    ctx.vault_token_account = key(9);
    assert_eq!(withdraw(&program(), &ctx, 1, NOW).unwrap_err(), VaultError::AddressMismatch);
}

#[test]
fn deposit_then_withdraw_conserves_balance() {
    let s = setup(1);
    let acct = s.vault.token_account;
    let t = deposit(&program(), &deposit_ctx(&s, 1), 100).unwrap();
    let balance = settle(0, &acct, &t);
    assert_eq!(balance, 100);
    let t = withdraw(&program(), &withdraw_ctx(&s, s.vault, 1, balance), 30, NOW).unwrap();
    let balance = settle(balance, &acct, &t);
    assert_eq!(balance, 70);
    let err = withdraw(&program(), &withdraw_ctx(&s, s.vault, 1, balance), 71, NOW).unwrap_err();
    assert_eq!(err, VaultError::InsufficientFunds);
    assert_eq!(balance, 70);
}

#[test]
fn lock_withdraw_wait_withdraw_scenario() {
    let s = setup(1);
    let acct = s.vault.token_account;
    let t = deposit(&program(), &deposit_ctx(&s, 1), 100).unwrap();
    let mut balance = settle(0, &acct, &t);
    let mut lock = LockVault { vault_address: s.addrs.vault, vault: s.vault, authority: key(1) };
    assert_eq!(lock_vault(&program(), &mut lock, NOW + 3600, NOW), Ok(()));
    let vault = lock.vault;
    let err = withdraw(&program(), &withdraw_ctx(&s, vault, 1, balance), 50, NOW).unwrap_err();
    assert_eq!(err, VaultError::VaultStillLocked);
    let t = withdraw(&program(), &withdraw_ctx(&s, vault, 1, balance), 50, NOW + 3601).unwrap();
    balance = settle(balance, &acct, &t);
    assert_eq!(balance, 50);
    assert!(vault.is_locked);
}

#[test]
fn running_lock_cannot_be_shortened() {
    let s = setup(1);
    let mut ctx = LockVault { vault_address: s.addrs.vault, vault: s.vault, authority: key(1) };
    assert_eq!(lock_vault(&program(), &mut ctx, NOW + 3600, NOW), Ok(()));
    assert_eq!(lock_vault(&program(), &mut ctx, NOW + 1, NOW).unwrap_err(), VaultError::VaultStillLocked);
    assert_eq!(lock_vault(&program(), &mut ctx, NOW + 7200, NOW).unwrap_err(), VaultError::VaultStillLocked);
    assert!(ctx.vault.is_locked);
    assert_eq!(ctx.vault.unlock_timestamp, NOW + 3600);
    let mut unlock = UnlockVault { vault_address: s.addrs.vault, vault: ctx.vault, authority: key(1) };
    assert_eq!(unlock_vault(&program(), &mut unlock, NOW + 1).unwrap_err(), VaultError::VaultStillLocked);
}

#[test]
fn expired_lock_can_be_renewed() {
    let s = setup(1);
    let mut ctx = LockVault { vault_address: s.addrs.vault, vault: s.vault, authority: key(1) };
    assert_eq!(lock_vault(&program(), &mut ctx, NOW + 10, NOW), Ok(()));
    assert_eq!(lock_vault(&program(), &mut ctx, NOW + 100, NOW + 10), Ok(()));
    assert_eq!(ctx.vault.unlock_timestamp, NOW + 100);
    assert!(ctx.vault.is_locked);
}

#[test]
fn deposit_refuses_account_of_another() {
    let s = setup(1);
    let mut ctx = deposit_ctx(&s, 1);
    ctx.user_token_owner = key(3);
    assert_eq!(deposit(&program(), &ctx, 10).unwrap_err(), VaultError::AddressMismatch);
}

#[test]
fn withdraw_refuses_paying_another() {
    let s = setup(1);
    let mut ctx = withdraw_ctx(&s, s.vault, 1, 40);
    ctx.user_token_owner = key(3);
    assert_eq!(withdraw(&program(), &ctx, 10, NOW).unwrap_err(), VaultError::AddressMismatch);
}

#[test]
fn past_deadline_on_running_lock_is_invalid_time() {
    let s = setup(1);
    let mut ctx = LockVault { vault_address: s.addrs.vault, vault: s.vault, authority: key(1) };
    assert_eq!(lock_vault(&program(), &mut ctx, NOW + 3600, NOW), Ok(()));
    assert_eq!(lock_vault(&program(), &mut ctx, NOW - 1, NOW).unwrap_err(), VaultError::InvalidUnlockTime);
    assert_eq!(lock_vault(&program(), &mut ctx, NOW, NOW).unwrap_err(), VaultError::InvalidUnlockTime);
    assert!(ctx.vault.is_locked);
    assert_eq!(ctx.vault.unlock_timestamp, NOW + 3600);
}

#[test]
fn signer_seeds_recompute_delegate() {
    let s = setup(1);
    let seeds = signer_seeds(Label::Authority, &s.addrs.vault, s.addrs.authority_bump);
    assert_eq!(seeds.len(), 3);
    assert_eq!(seeds[0], b"authority".to_vec());
    assert_eq!(seeds[1], s.addrs.vault.bytes.to_vec());
    assert_eq!(seeds[2], vec![s.addrs.authority_bump]);
}
