//! Accounts as the machine sees them: balance, nonce, code, and the storage
//! slots touched so far.

use crate::buffer::{bytes_as_slice, bytes_clone, bytes_new, bytes_seq};
use crate::collections::AssocMap;
use crate::crypto::{keccak, keccak_digest};
use crate::errors::VMError;
use crate::primitives::{lemma_word_of_view, word, word_modulus, H256, U256};
use bytes::Bytes;
use vstd::prelude::*;

verus! {

/// One storage slot: its value when the transaction began, its value now, and
/// whether the transaction has yet to touch it.
#[derive(Clone, Copy, Debug, PartialEq, Eq, Structural)]
pub struct StorageSlot {
    pub original_value: U256,
    pub current_value: U256,
    pub is_cold: bool,
}

impl StorageSlot {
    /// The slot that was never written: zero, and warm.
    pub open spec fn spec_empty() -> StorageSlot {
        StorageSlot { original_value: word(0), current_value: word(0), is_cold: false }
    }

    pub fn empty() -> (r: StorageSlot)
        ensures
            r == Self::spec_empty(),
    {
        StorageSlot { original_value: U256::zero(), current_value: U256::zero(), is_cold: false }
    }
}

/// What the database holds of an account.
#[derive(Debug)]
pub struct AccountInfo {
    pub balance: U256,
    pub nonce: u64,
    pub bytecode: Bytes,
}

/// An `AccountInfo` with its code as a byte sequence.
pub struct AccountInfoView {
    pub balance: U256,
    pub nonce: u64,
    pub bytecode: Seq<u8>,
}

impl View for AccountInfo {
    type V = AccountInfoView;

    open spec fn view(&self) -> AccountInfoView {
        AccountInfoView {
            balance: self.balance,
            nonce: self.nonce,
            bytecode: bytes_seq(self.bytecode),
        }
    }
}

impl Clone for AccountInfo {
    fn clone(&self) -> (r: Self)
        ensures
            r@ == self@,
    {
        AccountInfo {
            balance: self.balance,
            nonce: self.nonce,
            bytecode: bytes_clone(&self.bytecode),
        }
    }
}

impl AccountInfo {
    /// The info of an account that does not exist yet.
    pub open spec fn spec_empty() -> AccountInfoView {
        AccountInfoView { balance: word(0), nonce: 0, bytecode: Seq::empty() }
    }

    pub fn empty() -> (r: AccountInfo)
        ensures
            r@ == Self::spec_empty(),
    {
        AccountInfo { balance: U256::zero(), nonce: 0, bytecode: bytes_new() }
    }

    /// Whether the account has any code.
    pub fn has_code(&self) -> (r: bool)
        ensures
            r == (self@.bytecode.len() > 0),
    {
        bytes_as_slice(&self.bytecode).len() > 0
    }

    /// The hash of the account's code.
    pub fn bytecode_hash(&self) -> (r: H256)
        ensures
            r.0@ == keccak_digest(self@.bytecode),
    {
        H256(keccak(bytes_as_slice(&self.bytecode)))
    }
}

/// An account in the cache.
pub struct Account {
    pub info: AccountInfo,
    pub storage: AssocMap<U256, StorageSlot>,
}

/// An `Account` with its storage as a map.
pub struct AccountView {
    pub info: AccountInfoView,
    pub storage: Map<U256, StorageSlot>,
}

impl View for Account {
    type V = AccountView;

    open spec fn view(&self) -> AccountView {
        AccountView { info: self.info@, storage: self.storage@ }
    }
}

impl Clone for Account {
    fn clone(&self) -> (r: Self)
        ensures
            self.wf() ==> r.wf() && r@ == self@,
    {
        Account { info: self.info.clone(), storage: self.storage.clone() }
    }
}

/// The account with `amount` added to its balance, unless the sum does not fit in a word.
pub open spec fn balance_increased(account: AccountView, amount: U256) -> Result<
    AccountView,
    VMError,
> {
    if account.info.balance@ + amount@ >= word_modulus() {
        Err(VMError::BalanceOverflow)
    } else {
        Ok(
            AccountView {
                info: AccountInfoView {
                    balance: word(account.info.balance@ + amount@),
                    ..account.info
                },
                ..account
            },
        )
    }
}

/// The account with `amount` taken from its balance, unless it holds less.
pub open spec fn balance_decreased(account: AccountView, amount: U256) -> Result<
    AccountView,
    VMError,
> {
    if account.info.balance@ < amount@ {
        Err(VMError::BalanceUnderflow)
    } else {
        Ok(
            AccountView {
                info: AccountInfoView {
                    balance: word((account.info.balance@ - amount@) as nat),
                    ..account.info
                },
                ..account
            },
        )
    }
}

/// The account with its nonce one higher, unless the nonce is the largest there is.
pub open spec fn nonce_incremented(account: AccountView) -> Result<AccountView, VMError> {
    if account.info.nonce == u64::MAX {
        Err(VMError::NonceOverflow)
    } else {
        Ok(
            AccountView {
                info: AccountInfoView { nonce: (account.info.nonce + 1) as u64, ..account.info },
                ..account
            },
        )
    }
}

/// The account with its nonce one lower, unless the nonce is zero.
pub open spec fn nonce_decremented(account: AccountView) -> Result<AccountView, VMError> {
    if account.info.nonce == 0 {
        Err(VMError::NonceUnderflow)
    } else {
        Ok(
            AccountView {
                info: AccountInfoView { nonce: (account.info.nonce - 1) as u64, ..account.info },
                ..account
            },
        )
    }
}

impl Account {
    pub open spec fn wf(&self) -> bool {
        self.storage.wf()
    }

    /// Adds `amount` to the balance, unless the sum does not fit in a word.
    pub fn increase_balance(&mut self, amount: U256) -> (r: Result<(), VMError>)
        requires
            old(self).wf(),
        ensures
            final(self).wf(),
            match balance_increased(old(self)@, amount) {
                Ok(after) => r is Ok && final(self)@ == after,
                Err(e) => r == Err::<(), _>(e) && final(self)@ == old(self)@,
            },
    {
        match self.info.balance.checked_add(amount) {
            Some(sum) => {
                proof {
                    lemma_word_of_view(sum);
                }
                self.info.balance = sum;
                Ok(())
            },
            None => Err(VMError::BalanceOverflow),
        }
    }

    /// Takes `amount` from the balance, unless the account holds less.
    pub fn decrease_balance(&mut self, amount: U256) -> (r: Result<(), VMError>)
        requires
            old(self).wf(),
        ensures
            final(self).wf(),
            match balance_decreased(old(self)@, amount) {
                Ok(after) => r is Ok && final(self)@ == after,
                Err(e) => r == Err::<(), _>(e) && final(self)@ == old(self)@,
            },
    {
        match self.info.balance.checked_sub(amount) {
            Some(difference) => {
                proof {
                    lemma_word_of_view(difference);
                }
                self.info.balance = difference;
                Ok(())
            },
            None => Err(VMError::BalanceUnderflow),
        }
    }

    /// Raises the nonce by one and returns it, unless it is the largest there is.
    pub fn increment_nonce(&mut self) -> (r: Result<u64, VMError>)
        requires
            old(self).wf(),
        ensures
            final(self).wf(),
            match nonce_incremented(old(self)@) {
                Ok(after) => r == Ok::<_, VMError>(after.info.nonce) && final(self)@ == after,
                Err(e) => r == Err::<u64, _>(e) && final(self)@ == old(self)@,
            },
    {
        match self.info.nonce.checked_add(1) {
            Some(nonce) => {
                self.info.nonce = nonce;
                Ok(nonce)
            },
            None => Err(VMError::NonceOverflow),
        }
    }

    /// Lowers the nonce by one, unless it is zero.
    pub fn decrement_nonce(&mut self) -> (r: Result<(), VMError>)
        requires
            old(self).wf(),
        ensures
            final(self).wf(),
            match nonce_decremented(old(self)@) {
                Ok(after) => r is Ok && final(self)@ == after,
                Err(e) => r == Err::<(), _>(e) && final(self)@ == old(self)@,
            },
    {
        match self.info.nonce.checked_sub(1) {
            Some(nonce) => {
                self.info.nonce = nonce;
                Ok(())
            },
            None => Err(VMError::NonceUnderflow),
        }
    }

    /// The account that does not exist yet.
    pub open spec fn spec_empty() -> AccountView {
        AccountView { info: AccountInfo::spec_empty(), storage: Map::empty() }
    }

    /// An account with `info` and no storage slot touched.
    pub fn new(info: AccountInfo) -> (r: Account)
        ensures
            r.wf(),
            r@ == (AccountView { info: info@, storage: Map::empty() }),
    {
        Account { info, storage: AssocMap::new() }
    }

    pub fn empty() -> (r: Account)
        ensures
            r.wf(),
            r@ == Self::spec_empty(),
    {
        Account::new(AccountInfo::empty())
    }
}

} // verus!
