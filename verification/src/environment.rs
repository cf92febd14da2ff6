//! What a transaction and its block hand to the machine. None of it changes
//! while the transaction runs.

use crate::primitives::{Address, H256, U256};
use vstd::prelude::*;

verus! {

/// The protocol upgrades, oldest first.
#[derive(Clone, Copy, Debug, PartialEq, Eq, Structural)]
pub enum Fork {
    Frontier,
    FrontierThawing,
    Homestead,
    DaoFork,
    Tangerine,
    SpuriousDragon,
    Byzantium,
    Constantinople,
    Petersburg,
    Istanbul,
    MuirGlacier,
    Berlin,
    London,
    ArrowGlacier,
    GrayGlacier,
    Paris,
    Shanghai,
    Cancun,
    Prague,
    Osaka,
}

impl Fork {
    /// The place of the upgrade in the order of activation.
    pub open spec fn spec_rank(self) -> u8 {
        match self {
            Fork::Frontier => 0,
            Fork::FrontierThawing => 1,
            Fork::Homestead => 2,
            Fork::DaoFork => 3,
            Fork::Tangerine => 4,
            Fork::SpuriousDragon => 5,
            Fork::Byzantium => 6,
            Fork::Constantinople => 7,
            Fork::Petersburg => 8,
            Fork::Istanbul => 9,
            Fork::MuirGlacier => 10,
            Fork::Berlin => 11,
            Fork::London => 12,
            Fork::ArrowGlacier => 13,
            Fork::GrayGlacier => 14,
            Fork::Paris => 15,
            Fork::Shanghai => 16,
            Fork::Cancun => 17,
            Fork::Prague => 18,
            Fork::Osaka => 19,
        }
    }

    #[verifier::when_used_as_spec(spec_rank)]
    pub fn rank(self) -> (r: u8)
        ensures
            r == self.spec_rank(),
    {
        match self {
            Fork::Frontier => 0,
            Fork::FrontierThawing => 1,
            Fork::Homestead => 2,
            Fork::DaoFork => 3,
            Fork::Tangerine => 4,
            Fork::SpuriousDragon => 5,
            Fork::Byzantium => 6,
            Fork::Constantinople => 7,
            Fork::Petersburg => 8,
            Fork::Istanbul => 9,
            Fork::MuirGlacier => 10,
            Fork::Berlin => 11,
            Fork::London => 12,
            Fork::ArrowGlacier => 13,
            Fork::GrayGlacier => 14,
            Fork::Paris => 15,
            Fork::Shanghai => 16,
            Fork::Cancun => 17,
            Fork::Prague => 18,
            Fork::Osaka => 19,
        }
    }

    /// Whether this upgrade is `other` or a later one.
    pub fn at_least(self, other: Fork) -> (r: bool)
        ensures
            r == (self.rank() >= other.rank()),
    {
        self.rank() >= other.rank()
    }
}

/// The blob parameters of a fork.
#[derive(Clone, Copy, Debug, PartialEq, Eq, Structural)]
pub struct ForkBlobSchedule {
    pub target: u64,
    pub max: u64,
    pub base_fee_update_fraction: u64,
}

/// The fork in force and its blob parameters.
#[derive(Clone, Copy, Debug, PartialEq, Eq, Structural)]
pub struct EVMConfig {
    pub fork: Fork,
    pub blob_schedule: ForkBlobSchedule,
}

/// The block and transaction that the machine runs in.
#[derive(Debug)]
pub struct Environment {
    pub origin: Address,
    pub gas_limit: u64,
    pub config: EVMConfig,
    pub block_number: U256,
    pub coinbase: Address,
    pub timestamp: U256,
    pub prev_randao: Option<H256>,
    pub chain_id: U256,
    pub base_fee_per_gas: U256,
    pub gas_price: U256,
    pub block_excess_blob_gas: Option<U256>,
    pub block_blob_gas_used: Option<U256>,
    pub tx_blob_hashes: Vec<H256>,
    pub tx_max_fee_per_blob_gas: Option<U256>,
    pub block_gas_limit: u64,
}

} // verus!
