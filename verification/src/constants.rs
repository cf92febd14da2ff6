//! Sizes and limits fixed by the protocol.

use vstd::prelude::*;

verus! {

/// Bytes in a machine word.
pub const WORD_SIZE: usize = 32;

/// The most words a stack holds.
pub const STACK_LIMIT: usize = 1024;

/// How many of the latest blocks BLOCKHASH can see.
pub const LAST_AVAILABLE_BLOCK_LIMIT: u64 = 256;

/// What every transaction pays before it runs.
pub const TX_BASE_COST: u64 = 21000;

/// What each authorization tuple of a transaction costs.
pub const PER_EMPTY_ACCOUNT_COST: u64 = 25000;

/// The least price of a unit of blob gas.
pub const MIN_BASE_FEE_PER_BLOB_GAS: u64 = 1;

/// The denominator of the blob base fee's exponent.
pub const BLOB_BASE_FEE_UPDATE_FRACTION: u64 = 3338477;

/// The length of a delegation designator: three bytes of prefix and an address.
pub const EIP7702_DELEGATED_CODE_LEN: usize = 23;

/// The first, second and third byte of a delegation designator.
pub const SET_CODE_DELEGATION_BYTE_0: u8 = 0xef;

pub const SET_CODE_DELEGATION_BYTE_1: u8 = 0x01;

pub const SET_CODE_DELEGATION_BYTE_2: u8 = 0x00;

/// The byte that precedes an authorization's encoding when it is hashed.
pub const MAGIC: u8 = 0x05;

} // verus!
