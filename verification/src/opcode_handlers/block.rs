//! Block information: BLOCKHASH, COINBASE, TIMESTAMP, NUMBER, PREVRANDAO,
//! GASLIMIT, CHAINID, SELFBALANCE, BASEFEE, BLOBHASH, BLOBBASEFEE.

use crate::account::AccountView;
use crate::call_frame::{
    charge_and_push, frame_advanced, frame_charge, frame_pop, frame_push, CallFrame, FrameView,
    Transition,
};
use crate::constants::{
    BLOB_BASE_FEE_UPDATE_FRACTION, LAST_AVAILABLE_BLOCK_LIMIT, MIN_BASE_FEE_PER_BLOB_GAS,
};
use crate::db::{loaded_account, Database};
use crate::environment::Fork;
use crate::errors::{InternalError, OpcodeResult, VMError};
use crate::gas_cost;
use crate::gas_cost::{fake_exponential, fake_exponential_spec};
use crate::opcode_handlers::outcome;
use crate::primitives::{be_to_nat, lemma_word_of_view, word, Address, H256, U256};
use crate::utils::{address_to_word, get_account};
use crate::vm::VM;
use vstd::prelude::*;

verus! {

/// Whether BLOCKHASH can see block `block_number` from block `current`: it
/// is one of the 256 blocks before `current`.
pub open spec fn block_hash_in_window(block_number: nat, current: nat) -> bool {
    block_number < current && block_number + LAST_AVAILABLE_BLOCK_LIMIT >= current
}

/// The word that BLOCKHASH gives for what the database knows of a block: the
/// hash read most significant byte first, or zero where it knows none.
pub open spec fn block_hash_word(looked_up: Option<H256>) -> U256 {
    match looked_up {
        Some(hash) => word(be_to_nat(hash.0@)),
        None => word(0),
    }
}

/// The frame after BLOCKHASH, when the current block is `current` and the
/// database answers `looked_up` for a block in the window.
pub open spec fn blockhash_spec(frame: FrameView, current: nat, looked_up: Option<H256>) -> Transition {
    match frame_charge(frame, gas_cost::BLOCKHASH as int) {
        Err(e) => Err(e),
        Ok(charged) => match frame_pop(charged) {
            Err(e) => Err(e),
            Ok((popped, block_number)) => if !block_hash_in_window(block_number@, current) {
                frame_push(popped, word(0))
            } else if block_number@ > u64::MAX {
                Err((VMError::VeryLargeNumber, popped))
            } else {
                frame_push(popped, block_hash_word(looked_up))
            },
        },
    }
}

/// Whether BLOCKHASH may end as described, given that the database answered
/// `looked_up` where it was asked: it is asked for the block on top of the
/// stack, and only where that block is in the window.
pub open spec fn blockhash_outcome<D: Database>(
    db: D,
    frame: FrameView,
    current: nat,
    looked_up: Option<H256>,
    r: Result<OpcodeResult, VMError>,
    frame_after: FrameView,
) -> bool {
    &&& outcome(blockhash_spec(frame, current, looked_up), 1, r, frame_after)
    &&& r is Ok && block_hash_in_window(frame.stack.last()@, current) ==> call_ensures(
        D::get_block_hash,
        (&db, frame.stack.last()@ as u64),
        looked_up,
    )
}

/// BLOCKHASH gives zero for a block outside the window and for a block of
/// which no hash is known, and the hash as a word for a block whose hash is
/// known.
pub proof fn lemma_blockhash(frame: FrameView, current: nat, hash: H256)
    requires
        frame_charge(frame, gas_cost::BLOCKHASH as int) is Ok,
        frame.stack.len() > 0,
        frame.stack.len() <= crate::constants::STACK_LIMIT,
    ensures
        !block_hash_in_window(frame.stack.last()@, current) ==> blockhash_spec(
            frame,
            current,
            Some(hash),
        ) is Ok && blockhash_spec(frame, current, Some(hash))->Ok_0.stack == frame.stack.drop_last().push(
            word(0),
        ),
        block_hash_in_window(frame.stack.last()@, current) && frame.stack.last()@ <= u64::MAX
            ==> blockhash_spec(frame, current, None)->Ok_0.stack == frame.stack.drop_last().push(
            word(0),
        ) && blockhash_spec(frame, current, Some(hash))->Ok_0.stack
            == frame.stack.drop_last().push(word(be_to_nat(hash.0@))),
{
}

/// The word that BLOCKHASH gives for what the database knows of a block.
pub fn block_hash_to_word(looked_up: Option<H256>) -> (r: U256)
    ensures
        r == block_hash_word(looked_up),
{
    match looked_up {
        Some(hash) => {
            let r = hash.to_word();
            proof {
                lemma_word_of_view(r);
            }
            r
        },
        None => {
            let r = U256::zero();
            proof {
                lemma_word_of_view(r);
            }
            r
        },
    }
}

/// The frame after BLOBHASH, for a transaction with the blob hashes `hashes`.
pub open spec fn blobhash_spec(frame: FrameView, fork: Fork, hashes: Seq<H256>) -> Transition {
    if fork.rank() < Fork::Cancun.rank() {
        Err((VMError::InvalidOpcode, frame))
    } else {
        match frame_charge(frame, gas_cost::BLOBHASH as int) {
            Err(e) => Err(e),
            Ok(charged) => match frame_pop(charged) {
                Err(e) => Err(e),
                Ok((popped, index)) => if index@ >= hashes.len() {
                    frame_push(popped, word(0))
                } else {
                    frame_push(popped, word(be_to_nat(hashes[index@ as int].0@)))
                },
            },
        }
    }
}

/// The frame after BLOBBASEFEE, for a block with the excess blob gas `excess`.
pub open spec fn blobbasefee_spec(frame: FrameView, fork: Fork, excess: Option<U256>) -> Transition {
    if fork.rank() < Fork::Cancun.rank() {
        Err((VMError::InvalidOpcode, frame))
    } else {
        match frame_charge(frame, gas_cost::BLOBBASEFEE as int) {
            Err(e) => Err(e),
            Ok(charged) => match excess {
                None => Err(
                    (VMError::Internal(InternalError::ExcessBlobGasShouldNotBeNone), charged),
                ),
                Some(excess) => match fake_exponential_spec(
                    MIN_BASE_FEE_PER_BLOB_GAS as nat,
                    excess@,
                    BLOB_BASE_FEE_UPDATE_FRACTION as nat,
                ) {
                    Err(e) => Err((e, charged)),
                    Ok(fee) => frame_push(charged, fee),
                },
            },
        }
    }
}

/// Whether SELFBALANCE may end as described, given that `account` was loaded
/// for the address that the frame runs as. Where the charge fails, no
/// account is loaded.
pub open spec fn selfbalance_outcome<D: Database>(
    db: D,
    frame: FrameView,
    cache: Map<Address, AccountView>,
    account: AccountView,
    result: Result<OpcodeResult, VMError>,
    frame_after: FrameView,
    cache_after: Map<Address, AccountView>,
) -> bool {
    match frame_charge(frame, gas_cost::SELFBALANCE as int) {
        Err(e) => outcome(Err(e), 1, result, frame_after) && cache_after == cache,
        Ok(charged) => {
            &&& loaded_account(db, cache, frame.to, account)
            &&& cache_after == cache.insert(frame.to, account)
            &&& outcome(frame_push(charged, account.info.balance), 1, result, frame_after)
        },
    }
}

impl<D: Database> VM<D> {
    /// BLOCKHASH: replaces the block number on top of the stack by the hash
    /// of that block, or by zero where the block is not one of the last 256
    /// or the database knows no hash of it.
    pub fn op_blockhash(&mut self, current_call_frame: &mut CallFrame) -> (r: Result<
        OpcodeResult,
        VMError,
    >)
        requires
            old(current_call_frame).wf(),
        ensures
            final(current_call_frame).wf(),
            frame_advanced(old(current_call_frame)@, final(current_call_frame)@),
            *final(self) == *old(self),
            exists|looked_up: Option<H256>| #[trigger]
                blockhash_outcome(
                    old(self).db,
                    old(current_call_frame)@,
                    old(self).env.block_number@,
                    looked_up,
                    r,
                    final(current_call_frame)@,
                ),
    {
        let ghost before = current_call_frame@;
        let ghost current = self.env.block_number@;
        if let Err(e) = current_call_frame.increase_consumed_gas(gas_cost::BLOCKHASH) {
            assert(blockhash_outcome(
                self.db,
                before,
                current,
                None,
                Err(e),
                current_call_frame@,
            ));
            return Err(e);
        }
        let block_number = match current_call_frame.stack.pop() {
            Ok(block_number) => block_number,
            Err(e) => {
                assert(blockhash_outcome(
                    self.db,
                    before,
                    current,
                    None,
                    Err(e),
                    current_call_frame@,
                ));
                return Err(e);
            },
        };
        let oldest = self.env.block_number.saturating_sub(
            U256::from_u64(LAST_AVAILABLE_BLOCK_LIMIT),
        );
        let looked_up = if block_number.lt(&oldest) || block_number.ge(&self.env.block_number) {
            None
        } else {
            match block_number.to_u64() {
                Some(number) => self.db.get_block_hash(number),
                None => {
                    assert(blockhash_outcome(
                        self.db,
                        before,
                        current,
                        None,
                        Err(VMError::VeryLargeNumber),
                        current_call_frame@,
                    ));
                    return Err(VMError::VeryLargeNumber);
                },
            }
        };
        let value = block_hash_to_word(looked_up);
        let pushed = current_call_frame.stack.push(value);
        let r = match pushed {
            Ok(()) => Ok(OpcodeResult::Continue { pc_increment: 1 }),
            Err(e) => Err(e),
        };
        assert(blockhash_outcome(self.db, before, current, looked_up, r, current_call_frame@));
        r
    }

    /// COINBASE: pushes the address that the block's fees go to.
    pub fn op_coinbase(&mut self, current_call_frame: &mut CallFrame) -> (r: Result<
        OpcodeResult,
        VMError,
    >)
        requires
            old(current_call_frame).wf(),
        ensures
            final(current_call_frame).wf(),
            frame_advanced(old(current_call_frame)@, final(current_call_frame)@),
            *final(self) == *old(self),
            outcome(
                charge_and_push(
                    old(current_call_frame)@,
                    gas_cost::COINBASE as int,
                    word(be_to_nat(old(self).env.coinbase.0@)),
                ),
                1,
                r,
                final(current_call_frame)@,
            ),
    {
        let value = address_to_word(self.env.coinbase);
        proof {
            lemma_word_of_view(value);
        }
        charge_then_push(current_call_frame, gas_cost::COINBASE, value)
    }

    /// TIMESTAMP: pushes the time of the block.
    pub fn op_timestamp(&mut self, current_call_frame: &mut CallFrame) -> (r: Result<
        OpcodeResult,
        VMError,
    >)
        requires
            old(current_call_frame).wf(),
        ensures
            final(current_call_frame).wf(),
            frame_advanced(old(current_call_frame)@, final(current_call_frame)@),
            *final(self) == *old(self),
            outcome(
                charge_and_push(
                    old(current_call_frame)@,
                    gas_cost::TIMESTAMP as int,
                    old(self).env.timestamp,
                ),
                1,
                r,
                final(current_call_frame)@,
            ),
    {
        charge_then_push(current_call_frame, gas_cost::TIMESTAMP, self.env.timestamp)
    }

    /// NUMBER: pushes the number of the block.
    pub fn op_number(&mut self, current_call_frame: &mut CallFrame) -> (r: Result<
        OpcodeResult,
        VMError,
    >)
        requires
            old(current_call_frame).wf(),
        ensures
            final(current_call_frame).wf(),
            frame_advanced(old(current_call_frame)@, final(current_call_frame)@),
            *final(self) == *old(self),
            outcome(
                charge_and_push(
                    old(current_call_frame)@,
                    gas_cost::NUMBER as int,
                    old(self).env.block_number,
                ),
                1,
                r,
                final(current_call_frame)@,
            ),
    {
        charge_then_push(current_call_frame, gas_cost::NUMBER, self.env.block_number)
    }

    /// PREVRANDAO: pushes the randomness of the block before, zero where the
    /// block gives none.
    pub fn op_prevrandao(&mut self, current_call_frame: &mut CallFrame) -> (r: Result<
        OpcodeResult,
        VMError,
    >)
        requires
            old(current_call_frame).wf(),
        ensures
            final(current_call_frame).wf(),
            frame_advanced(old(current_call_frame)@, final(current_call_frame)@),
            *final(self) == *old(self),
            outcome(
                charge_and_push(
                    old(current_call_frame)@,
                    gas_cost::PREVRANDAO as int,
                    block_hash_word(old(self).env.prev_randao),
                ),
                1,
                r,
                final(current_call_frame)@,
            ),
    {
        let value = block_hash_to_word(self.env.prev_randao);
        charge_then_push(current_call_frame, gas_cost::PREVRANDAO, value)
    }

    /// GASLIMIT: pushes the gas limit of the block.
    pub fn op_gaslimit(&mut self, current_call_frame: &mut CallFrame) -> (r: Result<
        OpcodeResult,
        VMError,
    >)
        requires
            old(current_call_frame).wf(),
        ensures
            final(current_call_frame).wf(),
            frame_advanced(old(current_call_frame)@, final(current_call_frame)@),
            *final(self) == *old(self),
            outcome(
                charge_and_push(
                    old(current_call_frame)@,
                    gas_cost::GASLIMIT as int,
                    word(old(self).env.block_gas_limit as nat),
                ),
                1,
                r,
                final(current_call_frame)@,
            ),
    {
        let value = U256::from_u64(self.env.block_gas_limit);
        proof {
            lemma_word_of_view(value);
        }
        charge_then_push(current_call_frame, gas_cost::GASLIMIT, value)
    }

    /// CHAINID: pushes the id of the chain.
    pub fn op_chainid(&mut self, current_call_frame: &mut CallFrame) -> (r: Result<
        OpcodeResult,
        VMError,
    >)
        requires
            old(current_call_frame).wf(),
        ensures
            final(current_call_frame).wf(),
            frame_advanced(old(current_call_frame)@, final(current_call_frame)@),
            *final(self) == *old(self),
            outcome(
                charge_and_push(
                    old(current_call_frame)@,
                    gas_cost::CHAINID as int,
                    old(self).env.chain_id,
                ),
                1,
                r,
                final(current_call_frame)@,
            ),
    {
        charge_then_push(current_call_frame, gas_cost::CHAINID, self.env.chain_id)
    }

    /// SELFBALANCE: pushes the balance of the account that the frame runs
    /// as. The account is in the cache afterwards.
    pub fn op_selfbalance(&mut self, current_call_frame: &mut CallFrame) -> (r: Result<
        OpcodeResult,
        VMError,
    >)
        requires
            old(current_call_frame).wf(),
            old(self).wf(),
        ensures
            final(current_call_frame).wf(),
            frame_advanced(old(current_call_frame)@, final(current_call_frame)@),
            final(self).wf(),
            final(self).env == old(self).env,
            final(self).db == old(self).db,
            final(self).accrued_substate == old(self).accrued_substate,
            exists|account: AccountView| #[trigger]
                selfbalance_outcome(
                    old(self).db,
                    old(current_call_frame)@,
                    old(self).cache@,
                    account,
                    r,
                    final(current_call_frame)@,
                    final(self).cache@,
                ),
    {
        let ghost before = current_call_frame@;
        if let Err(e) = current_call_frame.increase_consumed_gas(gas_cost::SELFBALANCE) {
            assert(selfbalance_outcome(
                old(self).db,
                before,
                old(self).cache@,
                crate::account::Account::spec_empty(),
                Err(e),
                current_call_frame@,
                self.cache@,
            ));
            return Err(e);
        }
        let account = get_account(&mut self.cache, &self.db, current_call_frame.to);
        let pushed = current_call_frame.stack.push(account.info.balance);
        let r = match pushed {
            Ok(()) => Ok(OpcodeResult::Continue { pc_increment: 1 }),
            Err(e) => Err(e),
        };
        assert(selfbalance_outcome(
            old(self).db,
            before,
            old(self).cache@,
            account@,
            r,
            current_call_frame@,
            self.cache@,
        ));
        r
    }

    /// BASEFEE: pushes the base fee of the block.
    pub fn op_basefee(&mut self, current_call_frame: &mut CallFrame) -> (r: Result<
        OpcodeResult,
        VMError,
    >)
        requires
            old(current_call_frame).wf(),
        ensures
            final(current_call_frame).wf(),
            frame_advanced(old(current_call_frame)@, final(current_call_frame)@),
            *final(self) == *old(self),
            outcome(
                charge_and_push(
                    old(current_call_frame)@,
                    gas_cost::BASEFEE as int,
                    old(self).env.base_fee_per_gas,
                ),
                1,
                r,
                final(current_call_frame)@,
            ),
    {
        charge_then_push(current_call_frame, gas_cost::BASEFEE, self.env.base_fee_per_gas)
    }

    /// BLOBHASH: replaces the index on top of the stack by the blob hash of
    /// the transaction at that index, or by zero where there is none. Not an
    /// opcode before Cancun.
    pub fn op_blobhash(&mut self, current_call_frame: &mut CallFrame) -> (r: Result<
        OpcodeResult,
        VMError,
    >)
        requires
            old(current_call_frame).wf(),
        ensures
            final(current_call_frame).wf(),
            frame_advanced(old(current_call_frame)@, final(current_call_frame)@),
            *final(self) == *old(self),
            outcome(
                blobhash_spec(
                    old(current_call_frame)@,
                    old(self).env.config.fork,
                    old(self).env.tx_blob_hashes@,
                ),
                1,
                r,
                final(current_call_frame)@,
            ),
    {
        if !self.env.config.fork.at_least(Fork::Cancun) {
            return Err(VMError::InvalidOpcode);
        }
        current_call_frame.increase_consumed_gas(gas_cost::BLOBHASH)?;
        let index = current_call_frame.stack.pop()?;
        let blob_count = self.env.tx_blob_hashes.len();
        let position = match index.to_usize() {
            Some(position) => position,
            None => blob_count,
        };
        let value = if position < blob_count {
            self.env.tx_blob_hashes[position].to_word()
        } else {
            U256::zero()
        };
        proof {
            lemma_word_of_view(value);
        }
        current_call_frame.stack.push(value)?;
        Ok(OpcodeResult::Continue { pc_increment: 1 })
    }

    /// The price of a unit of blob gas in this block.
    fn get_blob_gasprice(&mut self) -> (r: Result<U256, VMError>)
        ensures
            *final(self) == *old(self),
            r == match old(self).env.block_excess_blob_gas {
                None => Err::<U256, VMError>(
                    VMError::Internal(InternalError::ExcessBlobGasShouldNotBeNone),
                ),
                Some(excess) => fake_exponential_spec(
                    MIN_BASE_FEE_PER_BLOB_GAS as nat,
                    excess@,
                    BLOB_BASE_FEE_UPDATE_FRACTION as nat,
                ),
            },
    {
        let excess = match self.env.block_excess_blob_gas {
            Some(excess) => excess,
            None => {
                return Err(VMError::Internal(InternalError::ExcessBlobGasShouldNotBeNone));
            },
        };
        fake_exponential(
            U256::from_u64(MIN_BASE_FEE_PER_BLOB_GAS),
            excess,
            U256::from_u64(BLOB_BASE_FEE_UPDATE_FRACTION),
        )
    }

    /// BLOBBASEFEE: pushes the price of a unit of blob gas in this block. Not
    /// an opcode before Cancun.
    pub fn op_blobbasefee(&mut self, current_call_frame: &mut CallFrame) -> (r: Result<
        OpcodeResult,
        VMError,
    >)
        requires
            old(current_call_frame).wf(),
        ensures
            final(current_call_frame).wf(),
            frame_advanced(old(current_call_frame)@, final(current_call_frame)@),
            *final(self) == *old(self),
            outcome(
                blobbasefee_spec(
                    old(current_call_frame)@,
                    old(self).env.config.fork,
                    old(self).env.block_excess_blob_gas,
                ),
                1,
                r,
                final(current_call_frame)@,
            ),
    {
        if !self.env.config.fork.at_least(Fork::Cancun) {
            return Err(VMError::InvalidOpcode);
        }
        current_call_frame.increase_consumed_gas(gas_cost::BLOBBASEFEE)?;
        let blob_base_fee = self.get_blob_gasprice()?;
        current_call_frame.stack.push(blob_base_fee)?;
        Ok(OpcodeResult::Continue { pc_increment: 1 })
    }
}

/// Charges `gas` to the frame and pushes `value`.
pub fn charge_then_push(current_call_frame: &mut CallFrame, gas: u64, value: U256) -> (r: Result<
    OpcodeResult,
    VMError,
>)
    requires
        old(current_call_frame).wf(),
    ensures
        final(current_call_frame).wf(),
        frame_advanced(old(current_call_frame)@, final(current_call_frame)@),
        outcome(
            charge_and_push(old(current_call_frame)@, gas as int, value),
            1,
            r,
            final(current_call_frame)@,
        ),
{
    current_call_frame.increase_consumed_gas(gas)?;
    current_call_frame.stack.push(value)?;
    Ok(OpcodeResult::Continue { pc_increment: 1 })
}

} // verus!
