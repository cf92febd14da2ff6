//! The state that a transaction works on: a cache of accounts, filled from the
//! database on first touch and authoritative from then on.

use crate::account::{Account, AccountInfo, AccountView, StorageSlot};
use crate::collections::AssocMap;
use crate::primitives::{Address, H256, U256};
use vstd::prelude::*;

verus! {

/// The persistent state beneath the cache. The machine only reads it, and
/// takes whatever it answers.
pub trait Database {
    fn get_account_info(&self, address: Address) -> AccountInfo;

    fn get_block_hash(&self, block_number: u64) -> Option<H256>;
}

/// The accounts touched so far, by address.
pub struct CacheDB {
    accounts: AssocMap<Address, Account>,
}

impl View for CacheDB {
    type V = Map<Address, AccountView>;

    closed spec fn view(&self) -> Map<Address, AccountView> {
        self.accounts@.map_values(|account: Account| account@)
    }
}

/// Whether `account` is what the database answers for `address`, with no
/// storage slot touched.
pub open spec fn fetched_account<D: Database>(db: D, address: Address, account: AccountView) -> bool {
    exists|info: AccountInfo| #[trigger]
        call_ensures(D::get_account_info, (&db, address), info) && account == (AccountView {
            info: info@,
            storage: Map::empty(),
        })
}

/// Whether `account` is what the machine works with for `address`: the
/// cached account, or, for an address not cached, what the database answers.
pub open spec fn loaded_account<D: Database>(
    db: D,
    cache: Map<Address, AccountView>,
    address: Address,
    account: AccountView,
) -> bool {
    if cache.contains_key(address) {
        account == cache[address]
    } else {
        fetched_account(db, address, account)
    }
}

/// `cache` with `account` at `address`, the slot under `key` of its storage
/// set to `slot`. Nothing else of the account changes, and no other account.
pub open spec fn with_storage_slot(
    cache: Map<Address, AccountView>,
    address: Address,
    account: AccountView,
    key: U256,
    slot: StorageSlot,
) -> Map<Address, AccountView> {
    cache.insert(
        address,
        AccountView { info: account.info, storage: account.storage.insert(key, slot) },
    )
}

/// Whether a write of `slot` under `key` of the account at `address` may
/// leave `cache_after`, given that `account` was loaded for `address`.
pub open spec fn storage_written<D: Database>(
    db: D,
    cache: Map<Address, AccountView>,
    address: Address,
    account: AccountView,
    key: U256,
    slot: StorageSlot,
    cache_after: Map<Address, AccountView>,
) -> bool {
    &&& loaded_account(db, cache, address, account)
    &&& cache_after == with_storage_slot(cache, address, account, key, slot)
}

/// A write to a storage slot leaves the account's balance, nonce and code,
/// its other slots, and every other account as they were.
pub proof fn lemma_write_changes_one_slot(
    cache: Map<Address, AccountView>,
    address: Address,
    account: AccountView,
    key: U256,
    slot: StorageSlot,
)
    ensures
        with_storage_slot(cache, address, account, key, slot)[address].info == account.info,
        storage_slot(with_storage_slot(cache, address, account, key, slot), address, key)
            == Some(slot),
        forall|other: U256|
            other != key ==> with_storage_slot(
                cache,
                address,
                account,
                key,
                slot,
            )[address].storage.contains_key(other) == account.storage.contains_key(other)
                && #[trigger] with_storage_slot(
                cache,
                address,
                account,
                key,
                slot,
            )[address].storage[other] == account.storage[other],
        forall|other: Address|
            other != address ==> with_storage_slot(
                cache,
                address,
                account,
                key,
                slot,
            ).contains_key(other) == cache.contains_key(other) && #[trigger] with_storage_slot(
                cache,
                address,
                account,
                key,
                slot,
            )[other] == cache[other],
{
}

/// The slot under `key` of the account at `address`, where the cache holds one.
pub open spec fn storage_slot(cache: Map<Address, AccountView>, address: Address, key: U256)
    -> Option<StorageSlot> {
    if cache.contains_key(address) && cache[address].storage.contains_key(key) {
        Some(cache[address].storage[key])
    } else {
        None
    }
}

impl CacheDB {
    /// The cache and every account in it are well formed.
    pub closed spec fn wf(&self) -> bool {
        &&& self.accounts.wf()
        &&& forall|address: Address| #[trigger]
            self.accounts@.contains_key(address) ==> self.accounts@[address].wf()
    }

    /// Whether the cache is well formed.
    pub fn is_well_formed(&self) -> (r: bool)
        ensures
            r == self.wf(),
    {
        if !self.accounts.is_well_formed() {
            return false;
        }
        let count = self.accounts.len();
        let mut i: usize = 0;
        while i < count
            invariant
                self.accounts.wf(),
                count == self.accounts.entry_count(),
                i <= count,
                forall|j: int|
                    0 <= j < i ==> self.accounts@[#[trigger] self.accounts.key_at(j)].wf(),
            decreases count - i,
        {
            let (_, account) = self.accounts.entry(i);
            if !account.storage.is_well_formed() {
                return false;
            }
            i += 1;
        }
        proof {
            assert forall|address: Address| #[trigger]
                self.accounts@.contains_key(address) implies self.accounts@[address].wf() by {
                self.accounts.lemma_key_has_entry(address);
            }
        }
        true
    }

    pub fn new() -> (r: CacheDB)
        ensures
            r.wf(),
            r@ == Map::<Address, AccountView>::empty(),
    {
        let r = CacheDB { accounts: AssocMap::new() };
        assert(r@ =~= Map::<Address, AccountView>::empty());
        r
    }

    pub fn is_account_cached(&self, address: &Address) -> (r: bool)
        requires
            self.wf(),
        ensures
            r == self@.contains_key(*address),
    {
        self.accounts.contains_key(address)
    }

    /// The account at `address`, where the cache holds it.
    pub fn get_account(&self, address: &Address) -> (r: Option<&Account>)
        requires
            self.wf(),
        ensures
            match r {
                Some(account) => self@.contains_key(*address) && account@ == self@[*address]
                    && account.wf(),
                None => !self@.contains_key(*address),
            },
    {
        self.accounts.get(address)
    }

    /// A handle on the account at `address`, where the cache holds it. What is
    /// written through the handle is the account afterwards.
    pub fn get_account_mut(&mut self, address: &Address) -> (r: Option<&mut Account>)
        requires
            old(self).wf(),
        ensures
            r is Some == old(self)@.contains_key(*address),
            match r {
                Some(account) => account@ == old(self)@[*address]
                    && account.wf()
                    && final(self)@ == old(self)@.insert(*address, final(account)@)
                    && (final(account).wf()
                    ==> final(self).wf()),
                None => final(self)@ == old(self)@ && final(self).wf(),
            },
    {
        self.accounts.get_mut(address)
    }

    /// Puts `account` at `address`, in place of what was there.
    pub fn insert_account(&mut self, address: Address, account: Account)
        requires
            old(self).wf(),
            account.wf(),
        ensures
            final(self).wf(),
            final(self)@ == old(self)@.insert(address, account@),
    {
        self.accounts.insert(address, account);
        assert(self@ =~= old(self)@.insert(address, account@));
    }

    /// The slot under `key` of the account at `address`, where the cache holds one.
    pub fn read_account_storage(&self, address: &Address, key: &U256) -> (r: Option<StorageSlot>)
        requires
            self.wf(),
        ensures
            r == storage_slot(self@, *address, *key),
    {
        match self.accounts.get(address) {
            Some(account) => match account.storage.get(key) {
                Some(slot) => Some(*slot),
                None => None,
            },
            None => None,
        }
    }

    /// Sets the slot under `key` of the account at `address`. An account that
    /// the cache does not hold is taken from the database first.
    pub fn write_account_storage<D: Database>(
        &mut self,
        db: &D,
        address: &Address,
        key: U256,
        slot: StorageSlot,
    )
        requires
            old(self).wf(),
        ensures
            final(self).wf(),
            exists|account: AccountView| #[trigger]
                storage_written(*db, old(self)@, *address, account, key, slot, final(self)@),
    {
        let mut account = match self.accounts.get(address) {
            Some(account) => account.clone(),
            None => Account::new(db.get_account_info(*address)),
        };
        let ghost loaded = account@;
        account.storage.insert(key, slot);
        self.insert_account(*address, account);
        assert(storage_written(*db, old(self)@, *address, loaded, key, slot, self@));
    }
}

} // verus!
