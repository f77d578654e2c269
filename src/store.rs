use vstd::prelude::*;

use crate::address::Address;
use crate::instructions::{initialize_vault, lock_vault, unlock_vault};
use crate::vault::{
    derive_vault_addresses, lock_error, locked_vault, unlock_error, unlocked_vault,
    vault_derivation, InitializeVault, LockVault, UnlockVault, Vault, VaultAddresses, VaultError,
};

verus! {

/// Vault records keyed by their address, at most one per address.
pub struct VaultStore {
    records: Vec<(Address, Vault)>,
    contents: Ghost<Map<Seq<u8>, Vault>>,
}

impl View for VaultStore {
    type V = Map<Seq<u8>, Vault>;

    closed spec fn view(&self) -> Map<Seq<u8>, Vault> {
        self.contents@
    }
}

impl VaultStore {
    /// The records list each address once, and the map holds exactly them.
    pub closed spec fn wf(&self) -> bool {
        &&& forall|i: int, j: int|
            0 <= i < j < self.records@.len() ==> self.records@[i].0@ != self.records@[j].0@
        &&& forall|i: int|
            0 <= i < self.records@.len() ==> #[trigger] self.contents@.contains_key(self.records@[i].0@)
                && self.contents@[self.records@[i].0@] == self.records@[i].1
        &&& forall|k: Seq<u8>|
            #[trigger] self.contents@.contains_key(k) ==> exists|i: int|
                0 <= i < self.records@.len() && self.records@[i].0@ == k
    }

    pub fn new() -> (r: VaultStore)
        ensures
            r.wf(),
            r@ == Map::<Seq<u8>, Vault>::empty(),
    {
        VaultStore { records: Vec::new(), contents: Ghost(Map::empty()) }
    }

    fn position(&self, address: &Address) -> (r: Option<usize>)
        requires
            self.wf(),
        ensures
            match r {
                Some(i) => i < self.records@.len() && self.records@[i as int].0@ == address@,
                None => !self@.contains_key(address@),
            },
    {
        let mut i: usize = 0;
        while i < self.records.len()
            invariant
                self.wf(),
                i <= self.records@.len(),
                forall|j: int| 0 <= j < i ==> self.records@[j].0@ != address@,
            decreases self.records@.len() - i,
        {
            if self.records[i].0.same_as(address) {
                return Some(i);
            }
            i = i + 1;
        }
        None
    }

    /// Whether `address` holds a record.
    pub fn contains(&self, address: &Address) -> (r: bool)
        requires
            self.wf(),
        ensures
            r == self@.contains_key(address@),
    {
        self.position(address).is_some()
    }

    /// The record at `address`, if any.
    pub fn get(&self, address: &Address) -> (r: Option<Vault>)
        requires
            self.wf(),
        ensures
            match r {
                Some(v) => self@.contains_key(address@) && self@[address@] == v,
                None => !self@.contains_key(address@),
            },
    {
        match self.position(address) {
            Some(i) => {
                assert(self.contents@.contains_key(self.records@[i as int].0@));
                Some(self.records[i].1)
            },
            None => None,
        }
    }

    /// Stores a new record at `address`; refuses an occupied address.
    pub fn create(&mut self, address: &Address, record: Vault) -> (r: Result<(), VaultError>)
        requires
            old(self).wf(),
        ensures
            final(self).wf(),
            old(self)@.contains_key(address@) ==> r == Err::<(), VaultError>(VaultError::AlreadyExists)
                && final(self)@ == old(self)@,
            !old(self)@.contains_key(address@) ==> r is Ok && final(self)@ == old(self)@.insert(address@, record),
    {
        if self.contains(address) {
            return Err(VaultError::AlreadyExists);
        }
        let ghost before = self.records@;
        self.records.push((*address, record));
        self.contents = Ghost(self.contents@.insert(address@, record));
        assert forall|k: Seq<u8>| #[trigger] self.contents@.contains_key(k) implies exists|i: int|
            0 <= i < self.records@.len() && self.records@[i].0@ == k by {
            if k == address@ {
                assert(self.records@[before.len() as int].0@ == k);
            } else {
                let i = choose|i: int| 0 <= i < before.len() && before[i].0@ == k;
                assert(self.records@[i] == before[i]);
            }
        }
        Ok(())
    }

    /// Replaces the whole record at `address` at once; an address without a
    /// record is left without one.
    pub fn update(&mut self, address: &Address, record: Vault) -> (r: bool)
        requires
            old(self).wf(),
        ensures
            final(self).wf(),
            r == old(self)@.contains_key(address@),
            r ==> final(self)@ == old(self)@.insert(address@, record),
            !r ==> final(self)@ == old(self)@,
    {
        match self.position(address) {
            None => false,
            Some(i) => {
                let ghost before = self.records@;
                let key = self.records[i].0;
                self.records.set(i, (key, record));
                let ghost old_contents = self.contents@;
                self.contents = Ghost(self.contents@.insert(address@, record));
                assert forall|j: int| 0 <= j < self.records@.len() implies #[trigger] self.contents@.contains_key(
                    self.records@[j].0@,
                ) && self.contents@[self.records@[j].0@] == self.records@[j].1 by {
                    if j != i {
                        assert(self.records@[j] == before[j]);
                        assert(old_contents.contains_key(before[j].0@));
                    }
                }
                assert forall|k: Seq<u8>| #[trigger] self.contents@.contains_key(k) implies exists|j: int|
                    0 <= j < self.records@.len() && self.records@[j].0@ == k by {
                    if k != address@ {
                        let j = choose|j: int| 0 <= j < before.len() && before[j].0@ == k;
                        assert(self.records@[j] == before[j]);
                    } else {
                        assert(self.records@[i as int].0@ == k);
                    }
                }
                true
            },
        }
    }

    /// Initialize against the store: derives the caller's vault address,
    /// refuses it when it holds a record, requires the allocated asset
    /// account to be controlled by the derived delegate, and stores the new
    /// unlocked vault. Nothing is stored when it fails.
    pub fn initialize(&mut self, program: &Address, payer: &Address, token_account: &Address, token_account_owner: &Address) -> (r: Result<VaultAddresses, VaultError>)
        requires
            old(self).wf(),
        ensures
            final(self).wf(),
            match vault_derivation(program@, payer@) {
                None => r == Err::<VaultAddresses, VaultError>(VaultError::DerivationExhausted),
                Some((v, vb, a, ab)) => if old(self)@.contains_key(v) {
                    r == Err::<VaultAddresses, VaultError>(VaultError::AlreadyExists)
                } else if a != token_account_owner@ {
                    r == Err::<VaultAddresses, VaultError>(VaultError::AddressMismatch)
                } else {
                    r is Ok
                },
            },
            r is Err ==> final(self)@ == old(self)@,
            match r {
                Ok(a) => final(self)@ == old(self)@.insert(
                    a.vault@,
                    Vault {
                        authority: *payer,
                        token_account: *token_account,
                        bump: a.vault_bump,
                        authority_bump: a.authority_bump,
                        is_locked: false,
                        unlock_timestamp: 0,
                    },
                ) && vault_derivation(program@, payer@) == Some(
                    (a.vault@, a.vault_bump, a.vault_authority@, a.authority_bump),
                ),
                Err(_) => true,
            },
    {
        let addresses = derive_vault_addresses(program, payer)?;
        let ctx = InitializeVault {
            payer: *payer,
            vault_exists: self.contains(&addresses.vault),
            token_account: *token_account,
            token_account_owner: *token_account_owner,
        };
        let (addresses, record) = initialize_vault(program, &ctx)?;
        match self.create(&addresses.vault, record) {
            Ok(()) => Ok(addresses),
            Err(e) => Err(e),
        }
    }

    /// Lock against the store: the record at `vault_address` is checked and
    /// locked by [`lock_vault`] and written back whole. An address without a
    /// record is refused as a mismatch.
    pub fn lock(&mut self, program: &Address, vault_address: &Address, caller: &Address, unlock_timestamp: i64, now: i64) -> (r: Result<(), VaultError>)
        requires
            old(self).wf(),
        ensures
            final(self).wf(),
            !old(self)@.contains_key(vault_address@) ==> r == Err::<(), VaultError>(VaultError::AddressMismatch)
                && final(self)@ == old(self)@,
            old(self)@.contains_key(vault_address@) ==> {
                let ctx = LockVault { vault_address: *vault_address, vault: old(self)@[vault_address@], authority: *caller };
                &&& r == match lock_error(program@, ctx, unlock_timestamp, now) {
                    Some(e) => Err(e),
                    None => Ok::<(), VaultError>(()),
                }
                &&& final(self)@ == old(self)@.insert(vault_address@, locked_vault(program@, ctx, unlock_timestamp, now))
            },
    {
        let vault = match self.get(vault_address) {
            Some(v) => v,
            None => return Err(VaultError::AddressMismatch),
        };
        let mut ctx = LockVault { vault_address: *vault_address, vault, authority: *caller };
        let r = lock_vault(program, &mut ctx, unlock_timestamp, now);
        self.update(vault_address, ctx.vault);
        r
    }

    /// Unlock against the store: the record at `vault_address` is checked and
    /// unlocked by [`unlock_vault`] and written back whole. An address
    /// without a record is refused as a mismatch.
    pub fn unlock(&mut self, program: &Address, vault_address: &Address, caller: &Address, now: i64) -> (r: Result<(), VaultError>)
        requires
            old(self).wf(),
        ensures
            final(self).wf(),
            !old(self)@.contains_key(vault_address@) ==> r == Err::<(), VaultError>(VaultError::AddressMismatch)
                && final(self)@ == old(self)@,
            old(self)@.contains_key(vault_address@) ==> {
                let ctx = UnlockVault { vault_address: *vault_address, vault: old(self)@[vault_address@], authority: *caller };
                &&& r == match unlock_error(program@, ctx, now) {
                    Some(e) => Err(e),
                    None => Ok::<(), VaultError>(()),
                }
                &&& final(self)@ == old(self)@.insert(vault_address@, unlocked_vault(program@, ctx, now))
            },
    {
        let vault = match self.get(vault_address) {
            Some(v) => v,
            None => return Err(VaultError::AddressMismatch),
        };
        let mut ctx = UnlockVault { vault_address: *vault_address, vault, authority: *caller };
        let r = unlock_vault(program, &mut ctx, now);
        self.update(vault_address, ctx.vault);
        r
    }
}

} // verus!
