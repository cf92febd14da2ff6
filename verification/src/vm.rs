//! The machine: the environment it runs in, the state it works on, and what
//! the run has touched so far.

use crate::collections::AssocSet;
use crate::db::{CacheDB, Database};
use crate::environment::Environment;
use crate::primitives::{Address, H256, U256};
use vstd::prelude::*;

verus! {

/// The addresses and storage keys that a transaction declares it will touch.
pub type AccessList = Vec<(Address, Vec<H256>)>;

/// A signed permission to set an account's code to a delegation.
#[derive(Clone, Copy, Debug)]
pub struct AuthorizationTuple {
    pub chain_id: U256,
    pub address: Address,
    pub nonce: u64,
    pub v: U256,
    pub r_signature: U256,
    pub s_signature: U256,
}

pub type AuthorizationList = Vec<AuthorizationTuple>;

/// What the execution has done so far that later pricing depends on.
pub struct Substate {
    /// The accounts touched in this transaction: they are warm.
    pub touched_accounts: AssocSet<Address>,
}

impl Substate {
    pub fn new() -> (r: Substate)
        ensures
            r.touched_accounts@ == Set::<Address>::empty(),
    {
        Substate { touched_accounts: AssocSet::new() }
    }
}

pub struct VM<D: Database> {
    pub env: Environment,
    pub cache: CacheDB,
    pub db: D,
    pub accrued_substate: Substate,
}

impl<D: Database> VM<D> {
    pub open spec fn wf(&self) -> bool {
        self.cache.wf()
    }

    /// Whether the machine is well formed.
    pub fn is_well_formed(&self) -> (r: bool)
        ensures
            r == self.wf(),
    {
        self.cache.is_well_formed()
    }

    /// A machine with nothing cached and nothing touched.
    pub fn new(env: Environment, db: D) -> (r: Self)
        ensures
            r.wf(),
            r.env == env,
            r.db == db,
            r.cache@ == Map::<Address, crate::account::AccountView>::empty(),
            r.accrued_substate.touched_accounts@ == Set::<Address>::empty(),
    {
        VM { env, cache: CacheDB::new(), db, accrued_substate: Substate::new() }
    }
}

} // verus!
