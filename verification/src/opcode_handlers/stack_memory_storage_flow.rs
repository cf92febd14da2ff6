//! Stack, memory, storage and flow: POP, MLOAD, MSTORE, MSTORE8, SLOAD,
//! SSTORE, JUMP, JUMPI, PC, MSIZE, GAS, JUMPDEST, TLOAD, TSTORE, MCOPY.

use crate::account::{AccountView, StorageSlot};
use crate::call_frame::{
    charge_and_push, frame_advanced, frame_charge, frame_peek, frame_pop, frame_push, spec_charge,
    CallFrame, FrameView, Transition,
};
use crate::constants::WORD_SIZE;
use crate::db::{loaded_account, storage_slot, with_storage_slot, Database};
use crate::errors::{OpcodeResult, OutOfGasError, VMError};
use crate::gas_cost;
use crate::memory::{checked_expansion_cost, copied, grown, stored};
use crate::opcode_handlers::block::charge_then_push;
use crate::opcode_handlers::outcome;
use crate::primitives::{
    be_to_nat, lemma_word_of_view, nat_to_be, saturated, word, Address, U256,
};
use crate::utils::{get_account, valid_jump_destination};
use crate::vm::VM;
use vstd::prelude::*;

verus! {

/// The frame after POP.
pub open spec fn pop_spec(frame: FrameView) -> Transition {
    match frame_charge(frame, gas_cost::POP as int) {
        Err(e) => Err(e),
        Ok(charged) => match frame_pop(charged) {
            Err(e) => Err(e),
            Ok((popped, _)) => Ok(popped),
        },
    }
}

/// What the transient storage holds for `owner` under `key`: zero where
/// nothing was stored.
pub open spec fn transient_value(
    transient_storage: Map<(Address, U256), U256>,
    owner: Address,
    key: U256,
) -> U256 {
    if transient_storage.contains_key((owner, key)) {
        transient_storage[(owner, key)]
    } else {
        word(0)
    }
}

/// The frame after TLOAD.
pub open spec fn tload_spec(frame: FrameView) -> Transition {
    match frame_charge(frame, gas_cost::TLOAD as int) {
        Err(e) => Err(e),
        Ok(charged) => match frame_pop(charged) {
            Err(e) => Err(e),
            Ok((popped, key)) => frame_push(
                popped,
                transient_value(popped.transient_storage, popped.msg_sender, key),
            ),
        },
    }
}

/// The frame after TSTORE.
pub open spec fn tstore_spec(frame: FrameView) -> Transition {
    if frame.is_static {
        Err((VMError::OpcodeNotAllowedInStaticContext, frame))
    } else {
        match frame_charge(frame, gas_cost::TSTORE as int) {
            Err(e) => Err(e),
            Ok(charged) => match frame_pop(charged) {
                Err(e) => Err(e),
                Ok((popped, key)) => match frame_pop(popped) {
                    Err(e) => Err(e),
                    Ok((after, value)) => Ok(
                        FrameView {
                            transient_storage: after.transient_storage.insert(
                                (after.msg_sender, key),
                                value,
                            ),
                            ..after
                        },
                    ),
                },
            },
        }
    }
}

/// What TSTORE has stored, TLOAD finds under the same owner and key; under
/// an owner and key that nothing was stored under, it finds zero.
pub proof fn lemma_transient_storage(
    transient_storage: Map<(Address, U256), U256>,
    owner: Address,
    key: U256,
    value: U256,
)
    ensures
        transient_value(transient_storage.insert((owner, key), value), owner, key) == value,
        !transient_storage.contains_key((owner, key)) ==> transient_value(
            transient_storage,
            owner,
            key,
        ) == word(0),
{
}

/// The end of a range of `size` bytes at `offset`, or the largest `usize`
/// where the end is beyond it.
pub open spec fn range_end(offset: usize, size: int) -> int {
    if offset + size > usize::MAX {
        usize::MAX as int
    } else {
        offset + size
    }
}

/// The frame after MLOAD. The offset is read and the gas charged before
/// anything is taken off the stack.
pub open spec fn mload_spec(frame: FrameView) -> Transition {
    match frame_peek(frame, 0) {
        Err(e) => Err(e),
        Ok(word_offset) => {
            let offset = saturated(word_offset@);
            match checked_expansion_cost(frame.memory.len() as int, range_end(offset, 32)) {
                Err(e) => Err((e, frame)),
                Ok(cost) => match frame_charge(frame, gas_cost::MLOAD_STATIC + cost) {
                    Err(e) => Err(e),
                    Ok(charged) => match frame_pop(charged) {
                        Err(e) => Err(e),
                        Ok((popped, _)) => {
                            let memory = grown(popped.memory, offset + 32);
                            frame_push(
                                FrameView { memory, ..popped },
                                word(be_to_nat(memory.subrange(offset as int, offset + 32))),
                            )
                        },
                    },
                },
            }
        },
    }
}

/// The frame after a store of the bytes `first` to 32 of the word under the
/// offset: all of the word for MSTORE, its last byte for MSTORE8. The offset
/// is read and the gas charged before anything is taken off the stack.
pub open spec fn mstore_bytes_spec(frame: FrameView, static_gas: int, first: int) -> Transition {
    match frame_peek(frame, 0) {
        Err(e) => Err(e),
        Ok(word_offset) => {
            let offset = saturated(word_offset@);
            match checked_expansion_cost(
                frame.memory.len() as int,
                range_end(offset, 32 - first),
            ) {
                Err(e) => Err((e, frame)),
                Ok(cost) => match frame_charge(frame, static_gas + cost) {
                    Err(e) => Err(e),
                    Ok(charged) => match frame_pop(charged) {
                        Err(e) => Err(e),
                        Ok((popped, _)) => match frame_pop(popped) {
                            Err(e) => Err(e),
                            Ok((after, value)) => Ok(
                                FrameView {
                                    memory: stored(
                                        after.memory,
                                        offset as int,
                                        nat_to_be(value@, 32).subrange(first, 32),
                                    ),
                                    ..after
                                },
                            ),
                        },
                    },
                },
            }
        },
    }
}

/// The account whose storage the frame works on: the delegate where there is
/// one, else the account whose code runs.
pub open spec fn storage_owner(frame: FrameView) -> Address {
    match frame.delegate {
        Some(delegate) => delegate,
        None => frame.code_address,
    }
}

/// The frame after SLOAD, when the state is `cache`.
pub open spec fn sload_spec(frame: FrameView, cache: Map<Address, AccountView>) -> Transition {
    match frame_pop(frame) {
        Err(e) => Err(e),
        Ok((popped, key)) => frame_push(
            popped,
            match storage_slot(cache, storage_owner(frame), key) {
                Some(slot) => slot.current_value,
                None => word(0),
            },
        ),
    }
}

/// The frame after SSTORE.
pub open spec fn sstore_spec(frame: FrameView) -> Transition {
    if frame.is_static {
        Err((VMError::OpcodeNotAllowedInStaticContext, frame))
    } else {
        match frame_pop(frame) {
            Err(e) => Err(e),
            Ok((popped, _)) => match frame_pop(popped) {
                Err(e) => Err(e),
                Ok((after, _)) => Ok(after),
            },
        }
    }
}

/// The slot that a write of `value` leaves under `key` of `account`: its
/// original value is that of the slot that was there, or `value` where there
/// was none.
pub open spec fn written_slot(account: AccountView, key: U256, value: U256) -> StorageSlot {
    StorageSlot {
        original_value: if account.storage.contains_key(key) {
            account.storage[key].original_value
        } else {
            value
        },
        current_value: value,
        is_cold: false,
    }
}

/// The state after a write of `value` under `key` of `owner`, for which
/// `account` was loaded.
pub open spec fn sstore_state(
    cache: Map<Address, AccountView>,
    owner: Address,
    account: AccountView,
    key: U256,
    value: U256,
) -> Map<Address, AccountView> {
    with_storage_slot(cache, owner, account, key, written_slot(account, key, value))
}

/// Whether SSTORE may end as described, given that `account` was loaded for
/// the owner of the storage. Where the frame fails, no account is loaded and
/// the state stays as it was.
pub open spec fn sstore_outcome<D: Database>(
    db: D,
    frame: FrameView,
    cache: Map<Address, AccountView>,
    account: AccountView,
    result: Result<OpcodeResult, VMError>,
    frame_after: FrameView,
    cache_after: Map<Address, AccountView>,
) -> bool {
    &&& outcome(sstore_spec(frame), 1, result, frame_after)
    &&& match sstore_spec(frame) {
        Err(_) => cache_after == cache,
        Ok(_) => {
            &&& loaded_account(db, cache, storage_owner(frame), account)
            &&& cache_after == sstore_state(
                cache,
                storage_owner(frame),
                account,
                frame.stack.last(),
                frame.stack[frame.stack.len() - 2],
            )
        },
    }
}

/// A write keeps the original value of a slot that exists, so a second write
/// to a slot leaves the original value that the first write left; and the
/// value written is the slot's current value.
pub proof fn lemma_sstore_keeps_original(
    cache: Map<Address, AccountView>,
    owner: Address,
    account: AccountView,
    key: U256,
    first: U256,
    second: U256,
)
    ensures
        ({
            let once = sstore_state(cache, owner, account, key, first);
            let twice = sstore_state(once, owner, once[owner], key, second);
            &&& storage_slot(once, owner, key) is Some
            &&& storage_slot(once, owner, key)->0.current_value == first
            &&& account.storage.contains_key(key) ==> storage_slot(
                once,
                owner,
                key,
            )->0.original_value == account.storage[key].original_value
            &&& storage_slot(twice, owner, key) is Some
            &&& storage_slot(twice, owner, key)->0.current_value == second
            &&& storage_slot(twice, owner, key)->0.original_value == storage_slot(
                once,
                owner,
                key,
            )->0.original_value
        }),
{
}

/// SSTORE changes one storage slot: the balance, the nonce and the code of
/// the owner, its other slots, and all other accounts stay as they were.
pub proof fn lemma_sstore_changes_one_slot(
    cache: Map<Address, AccountView>,
    owner: Address,
    account: AccountView,
    key: U256,
    value: U256,
)
    ensures
        sstore_state(cache, owner, account, key, value)[owner].info == account.info,
        forall|other: U256|
            other != key ==> sstore_state(cache, owner, account, key, value)[owner].storage.contains_key(
                other,
            ) == account.storage.contains_key(other) && #[trigger] sstore_state(
                cache,
                owner,
                account,
                key,
                value,
            )[owner].storage[other] == account.storage[other],
        forall|other: Address|
            other != owner ==> sstore_state(cache, owner, account, key, value).contains_key(other)
                == cache.contains_key(other) && #[trigger] sstore_state(
                cache,
                owner,
                account,
                key,
                value,
            )[other] == cache[other],
{
    crate::db::lemma_write_changes_one_slot(
        cache,
        owner,
        account,
        key,
        written_slot(account, key, value),
    );
}

/// The frame after GAS: what is left after GAS itself is paid for.
pub open spec fn gas_spec(frame: FrameView) -> Transition {
    match frame_charge(frame, gas_cost::GAS as int) {
        Err(e) => Err(e),
        Ok(charged) => frame_push(
            charged,
            word((charged.gas_limit - charged.gas_used) as nat),
        ),
    }
}

/// The frame with its three top words taken off.
pub open spec fn frame_pop_three(frame: FrameView) -> Transition {
    match frame_pop(frame) {
        Err(e) => Err(e),
        Ok((first, _)) => match frame_pop(first) {
            Err(e) => Err(e),
            Ok((second, _)) => match frame_pop(second) {
                Err(e) => Err(e),
                Ok((third, _)) => Ok(third),
            },
        },
    }
}

/// The frame after MCOPY. The operands are read and the gas charged before
/// anything is taken off the stack.
pub open spec fn mcopy_spec(frame: FrameView) -> Transition {
    match frame_peek(frame, 2) {
        Err(e) => Err(e),
        Ok(word_size) => {
            let dest = saturated(frame.stack[frame.stack.len() - 1]@);
            let src = saturated(frame.stack[frame.stack.len() - 2]@);
            let size = saturated(word_size@);
            let larger = if src >= dest {
                src
            } else {
                dest
            };
            if size + 31 > usize::MAX || larger + size > usize::MAX {
                Err((VMError::OverflowInArithmeticOp, frame))
            } else {
                match checked_expansion_cost(frame.memory.len() as int, larger + size) {
                    Err(e) => Err((e, frame)),
                    Ok(cost) => match frame_charge(
                        frame,
                        gas_cost::MCOPY_STATIC + gas_cost::MCOPY_DYNAMIC_BASE * ((size + 31) / 32)
                            + cost,
                    ) {
                        Err(e) => Err(e),
                        Ok(charged) => match frame_pop_three(charged) {
                            Err(e) => Err(e),
                            Ok(popped) => Ok(
                                FrameView {
                                    memory: if size > 0 {
                                        copied(popped.memory, src as int, dest as int, size as int)
                                    } else {
                                        popped.memory
                                    },
                                    ..popped
                                },
                            ),
                        },
                    }
                }
            }
        },
    }
}

/// A copy leaves at the destination what stood at the source before, also
/// where the two ranges overlap.
pub proof fn lemma_copy_reads_before_writing(memory: Seq<u8>, src: int, dest: int, size: int)
    requires
        memory.len() % 32 == 0,
        0 <= src,
        0 <= dest,
        0 <= size,
    ensures
        copied(memory, src, dest, size).subrange(dest, dest + size) == grown(
            memory,
            (if src >= dest {
                src
            } else {
                dest
            }) + size,
        ).subrange(src, src + size),
{
    let larger = if src >= dest {
        src
    } else {
        dest
    };
    crate::memory::lemma_grown(memory, larger + size);
    assert(copied(memory, src, dest, size).subrange(dest, dest + size) =~= grown(
        memory,
        larger + size,
    ).subrange(src, src + size));
}

/// The frame after JUMP.
pub open spec fn jump_spec(frame: FrameView) -> Transition {
    match frame_charge(frame, gas_cost::JUMP as int) {
        Err(e) => Err(e),
        Ok(charged) => match frame_pop(charged) {
            Err(e) => Err(e),
            Ok((popped, target)) => if valid_jump_destination(popped.bytecode, target@ as int) {
                Ok(FrameView { pc: target@ as usize, ..popped })
            } else {
                Err((VMError::InvalidJump, FrameView { gas_used: popped.gas_limit, ..popped }))
            },
        },
    }
}

/// The frame after JUMPI.
pub open spec fn jumpi_spec(frame: FrameView) -> Transition {
    match frame_charge(frame, gas_cost::JUMPI as int) {
        Err(e) => Err(e),
        Ok(charged) => match frame_pop(charged) {
            Err(e) => Err(e),
            Ok((popped, target)) => match frame_pop(popped) {
                Err(e) => Err(e),
                Ok((after, condition)) => if condition@ == 0 {
                    Ok(after)
                } else if valid_jump_destination(after.bytecode, target@ as int) {
                    Ok(FrameView { pc: target@ as usize, ..after })
                } else {
                    Err((VMError::InvalidJump, FrameView { gas_used: after.gas_limit, ..after }))
                },
            },
        }
    }
}

/// By how much the program counter moves on after JUMPI: by one where the
/// condition is zero, not at all where the jump was taken.
pub open spec fn jumpi_increment(frame: FrameView) -> usize {
    if frame.stack.len() >= 2 && frame.stack[frame.stack.len() - 2]@ == 0 {
        1
    } else {
        0
    }
}

/// The frame after JUMPDEST.
pub open spec fn jumpdest_spec(frame: FrameView) -> Transition {
    frame_charge(frame, gas_cost::JUMPDEST as int)
}

/// Charges `gas` to the frame; an amount beyond 64 bits is beyond any limit.
fn charge_total(current_call_frame: &mut CallFrame, gas: u128) -> (r: Result<(), VMError>)
    requires
        old(current_call_frame).wf(),
    ensures
        final(current_call_frame).wf(),
        frame_advanced(old(current_call_frame)@, final(current_call_frame)@),
        match spec_charge(old(current_call_frame)@, gas as int) {
            Ok(frame) => r is Ok && final(current_call_frame)@ == frame,
            Err(e) => r == Err::<(), _>(e)
                && final(current_call_frame)@ == old(current_call_frame)@,
        },
{
    if gas > u64::MAX as u128 {
        return Err(VMError::OutOfGas(OutOfGasError::ConsumedGasOverflow));
    }
    current_call_frame.increase_consumed_gas(gas as u64)
}

/// The end of a range of `size` bytes at `offset`, or the largest `usize`
/// where the end is beyond it.
fn end_of_range(offset: usize, size: usize) -> (r: usize)
    ensures
        r == range_end(offset, size as int),
{
    match offset.checked_add(size) {
        Some(end) => end,
        None => usize::MAX,
    }
}

impl<D: Database> VM<D> {
    /// POP: takes the top of the stack off.
    pub fn op_pop(&mut self, current_call_frame: &mut CallFrame) -> (r: Result<
        OpcodeResult,
        VMError,
    >)
        requires
            old(current_call_frame).wf(),
        ensures
            final(current_call_frame).wf(),
            frame_advanced(old(current_call_frame)@, final(current_call_frame)@),
            *final(self) == *old(self),
            outcome(pop_spec(old(current_call_frame)@), 1, r, final(current_call_frame)@),
    {
        current_call_frame.increase_consumed_gas(gas_cost::POP)?;
        current_call_frame.stack.pop()?;
        Ok(OpcodeResult::Continue { pc_increment: 1 })
    }

    /// TLOAD: replaces the key on top of the stack by what the transient
    /// storage holds under it for the caller, zero where it holds nothing.
    pub fn op_tload(&mut self, current_call_frame: &mut CallFrame) -> (r: Result<
        OpcodeResult,
        VMError,
    >)
        requires
            old(current_call_frame).wf(),
        ensures
            final(current_call_frame).wf(),
            frame_advanced(old(current_call_frame)@, final(current_call_frame)@),
            *final(self) == *old(self),
            outcome(tload_spec(old(current_call_frame)@), 1, r, final(current_call_frame)@),
    {
        current_call_frame.increase_consumed_gas(gas_cost::TLOAD)?;
        let key = current_call_frame.stack.pop()?;
        let value = match current_call_frame.transient_storage.get(
            &(current_call_frame.msg_sender, key),
        ) {
            Some(value) => *value,
            None => {
                let zero = U256::zero();
                proof {
                    lemma_word_of_view(zero);
                }
                zero
            },
        };
        current_call_frame.stack.push(value)?;
        Ok(OpcodeResult::Continue { pc_increment: 1 })
    }

    /// TSTORE: takes a key and a value off the stack and stores the value
    /// under the key in the transient storage of the caller. Not allowed in
    /// a static call.
    pub fn op_tstore(&mut self, current_call_frame: &mut CallFrame) -> (r: Result<
        OpcodeResult,
        VMError,
    >)
        requires
            old(current_call_frame).wf(),
        ensures
            final(current_call_frame).wf(),
            frame_advanced(old(current_call_frame)@, final(current_call_frame)@),
            *final(self) == *old(self),
            outcome(tstore_spec(old(current_call_frame)@), 1, r, final(current_call_frame)@),
    {
        if current_call_frame.is_static {
            return Err(VMError::OpcodeNotAllowedInStaticContext);
        }
        current_call_frame.increase_consumed_gas(gas_cost::TSTORE)?;
        let key = current_call_frame.stack.pop()?;
        let value = current_call_frame.stack.pop()?;
        current_call_frame.transient_storage.insert((current_call_frame.msg_sender, key), value);
        Ok(OpcodeResult::Continue { pc_increment: 1 })
    }

    /// MLOAD: replaces the offset on top of the stack by the word that the
    /// memory holds there, growing the memory where it must.
    pub fn op_mload(&mut self, current_call_frame: &mut CallFrame) -> (r: Result<
        OpcodeResult,
        VMError,
    >)
        requires
            old(current_call_frame).wf(),
        ensures
            final(current_call_frame).wf(),
            frame_advanced(old(current_call_frame)@, final(current_call_frame)@),
            *final(self) == *old(self),
            outcome(mload_spec(old(current_call_frame)@), 1, r, final(current_call_frame)@),
    {
        let offset = current_call_frame.stack.peek(0)?.to_usize_saturating();
        let memory_expansion_cost = current_call_frame.memory.expansion_cost(
            end_of_range(offset, WORD_SIZE),
        )?;
        charge_total(
            current_call_frame,
            gas_cost::MLOAD_STATIC as u128 + memory_expansion_cost as u128,
        )?;
        current_call_frame.stack.pop()?;
        let value = current_call_frame.memory.load(offset);
        proof {
            lemma_word_of_view(value);
        }
        current_call_frame.stack.push(value)?;
        Ok(OpcodeResult::Continue { pc_increment: 1 })
    }

    /// MSTORE: takes an offset and a word off the stack and writes the word
    /// to the memory at the offset, growing the memory where it must.
    pub fn op_mstore(&mut self, current_call_frame: &mut CallFrame) -> (r: Result<
        OpcodeResult,
        VMError,
    >)
        requires
            old(current_call_frame).wf(),
        ensures
            final(current_call_frame).wf(),
            frame_advanced(old(current_call_frame)@, final(current_call_frame)@),
            *final(self) == *old(self),
            outcome(
                mstore_bytes_spec(old(current_call_frame)@, gas_cost::MSTORE_STATIC as int, 0),
                1,
                r,
                final(current_call_frame)@,
            ),
    {
        let offset = current_call_frame.stack.peek(0)?.to_usize_saturating();
        let memory_expansion_cost = current_call_frame.memory.expansion_cost(
            end_of_range(offset, WORD_SIZE),
        )?;
        charge_total(
            current_call_frame,
            gas_cost::MSTORE_STATIC as u128 + memory_expansion_cost as u128,
        )?;
        current_call_frame.stack.pop()?;
        let value = current_call_frame.stack.pop()?;
        let value_bytes = value.to_big_endian();
        assert(value_bytes@.subrange(0, 32) =~= value_bytes@);
        current_call_frame.memory.store_bytes(offset, value_bytes.as_slice());
        Ok(OpcodeResult::Continue { pc_increment: 1 })
    }

    /// MSTORE8: takes an offset and a word off the stack and writes the
    /// lowest byte of the word to the memory at the offset, growing the
    /// memory where it must.
    pub fn op_mstore8(&mut self, current_call_frame: &mut CallFrame) -> (r: Result<
        OpcodeResult,
        VMError,
    >)
        requires
            old(current_call_frame).wf(),
        ensures
            final(current_call_frame).wf(),
            frame_advanced(old(current_call_frame)@, final(current_call_frame)@),
            *final(self) == *old(self),
            outcome(
                mstore_bytes_spec(old(current_call_frame)@, gas_cost::MSTORE8_STATIC as int, 31),
                1,
                r,
                final(current_call_frame)@,
            ),
    {
        let offset = current_call_frame.stack.peek(0)?.to_usize_saturating();
        let memory_expansion_cost = current_call_frame.memory.expansion_cost(
            end_of_range(offset, 1),
        )?;
        charge_total(
            current_call_frame,
            gas_cost::MSTORE8_STATIC as u128 + memory_expansion_cost as u128,
        )?;
        current_call_frame.stack.pop()?;
        let value = current_call_frame.stack.pop()?;
        let value_bytes = value.to_big_endian();
        current_call_frame.memory.store_bytes(
            offset,
            &value_bytes.as_slice()[WORD_SIZE - 1..WORD_SIZE],
        );
        Ok(OpcodeResult::Continue { pc_increment: 1 })
    }

    /// SLOAD: replaces the key on top of the stack by the current value of
    /// the slot under it in the storage that the frame works on, zero where
    /// the state holds no such slot.
    pub fn op_sload(&mut self, current_call_frame: &mut CallFrame) -> (r: Result<
        OpcodeResult,
        VMError,
    >)
        requires
            old(current_call_frame).wf(),
            old(self).wf(),
        ensures
            final(current_call_frame).wf(),
            frame_advanced(old(current_call_frame)@, final(current_call_frame)@),
            *final(self) == *old(self),
            outcome(
                sload_spec(old(current_call_frame)@, old(self).cache@),
                1,
                r,
                final(current_call_frame)@,
            ),
    {
        let key = current_call_frame.stack.pop()?;
        let address = match current_call_frame.delegate {
            Some(delegate) => delegate,
            None => current_call_frame.code_address,
        };
        let current_value = match self.cache.read_account_storage(&address, &key) {
            Some(slot) => slot.current_value,
            None => {
                let zero = U256::zero();
                proof {
                    lemma_word_of_view(zero);
                }
                zero
            },
        };
        current_call_frame.stack.push(current_value)?;
        Ok(OpcodeResult::Continue { pc_increment: 1 })
    }

    /// SSTORE: takes a key and a value off the stack and writes the value
    /// under the key in the storage that the frame works on. The owner of
    /// the storage is loaded first, so that nothing else of it changes. The
    /// slot keeps its original value; a slot that was not there gets the
    /// value written as its original value. Not allowed in a static call.
    pub fn op_sstore(&mut self, current_call_frame: &mut CallFrame) -> (r: Result<
        OpcodeResult,
        VMError,
    >)
        requires
            old(current_call_frame).wf(),
            old(self).wf(),
        ensures
            final(current_call_frame).wf(),
            frame_advanced(old(current_call_frame)@, final(current_call_frame)@),
            final(self).wf(),
            final(self).env == old(self).env,
            final(self).db == old(self).db,
            final(self).accrued_substate == old(self).accrued_substate,
            exists|account: AccountView| #[trigger]
                sstore_outcome(
                    old(self).db,
                    old(current_call_frame)@,
                    old(self).cache@,
                    account,
                    r,
                    final(current_call_frame)@,
                    final(self).cache@,
                ),
    {
        let ghost before = current_call_frame@;
        let ghost unloaded = crate::account::Account::spec_empty();
        if current_call_frame.is_static {
            let r = Err(VMError::OpcodeNotAllowedInStaticContext);
            assert(sstore_outcome(
                self.db,
                before,
                self.cache@,
                unloaded,
                r,
                current_call_frame@,
                self.cache@,
            ));
            return r;
        }
        let key = match current_call_frame.stack.pop() {
            Ok(key) => key,
            Err(e) => {
                assert(sstore_outcome(
                    self.db,
                    before,
                    self.cache@,
                    unloaded,
                    Err(e),
                    current_call_frame@,
                    self.cache@,
                ));
                return Err(e);
            },
        };
        let value = match current_call_frame.stack.pop() {
            Ok(value) => value,
            Err(e) => {
                assert(sstore_outcome(
                    self.db,
                    before,
                    self.cache@,
                    unloaded,
                    Err(e),
                    current_call_frame@,
                    self.cache@,
                ));
                return Err(e);
            },
        };
        let address = match current_call_frame.delegate {
            Some(delegate) => delegate,
            None => current_call_frame.code_address,
        };
        let mut account = get_account(&mut self.cache, &self.db, address);
        let ghost loaded = account@;
        let original_value = match account.storage.get(&key) {
            Some(slot) => slot.original_value,
            None => value,
        };
        account.storage.insert(
            key,
            StorageSlot { original_value, current_value: value, is_cold: false },
        );
        self.cache.insert_account(address, account);
        let r = Ok(OpcodeResult::Continue { pc_increment: 1 });
        assert(self.cache@ =~= sstore_state(old(self).cache@, address, loaded, key, value));
        assert(sstore_outcome(
            old(self).db,
            before,
            old(self).cache@,
            loaded,
            r,
            current_call_frame@,
            self.cache@,
        ));
        r
    }

    /// MSIZE: pushes the size of the memory in bytes.
    pub fn op_msize(&mut self, current_call_frame: &mut CallFrame) -> (r: Result<
        OpcodeResult,
        VMError,
    >)
        requires
            old(current_call_frame).wf(),
        ensures
            final(current_call_frame).wf(),
            frame_advanced(old(current_call_frame)@, final(current_call_frame)@),
            *final(self) == *old(self),
            outcome(
                charge_and_push(
                    old(current_call_frame)@,
                    gas_cost::MSIZE as int,
                    word(old(current_call_frame)@.memory.len()),
                ),
                1,
                r,
                final(current_call_frame)@,
            ),
    {
        let size = current_call_frame.memory.size();
        proof {
            lemma_word_of_view(size);
        }
        charge_then_push(current_call_frame, gas_cost::MSIZE, size)
    }

    /// GAS: pushes the gas that is left after GAS itself is paid for.
    pub fn op_gas(&mut self, current_call_frame: &mut CallFrame) -> (r: Result<
        OpcodeResult,
        VMError,
    >)
        requires
            old(current_call_frame).wf(),
        ensures
            final(current_call_frame).wf(),
            frame_advanced(old(current_call_frame)@, final(current_call_frame)@),
            *final(self) == *old(self),
            outcome(gas_spec(old(current_call_frame)@), 1, r, final(current_call_frame)@),
    {
        current_call_frame.increase_consumed_gas(gas_cost::GAS)?;
        let remaining_gas = U256::from_u64(
            current_call_frame.gas_limit - current_call_frame.gas_used,
        );
        proof {
            lemma_word_of_view(remaining_gas);
        }
        current_call_frame.stack.push(remaining_gas)?;
        Ok(OpcodeResult::Continue { pc_increment: 1 })
    }

    /// MCOPY: takes a destination, a source and a size off the stack and
    /// copies that many bytes of memory from the source to the destination,
    /// growing the memory where it must. The bytes are read before any is
    /// written.
    pub fn op_mcopy(&mut self, current_call_frame: &mut CallFrame) -> (r: Result<
        OpcodeResult,
        VMError,
    >)
        requires
            old(current_call_frame).wf(),
        ensures
            final(current_call_frame).wf(),
            frame_advanced(old(current_call_frame)@, final(current_call_frame)@),
            *final(self) == *old(self),
            outcome(mcopy_spec(old(current_call_frame)@), 1, r, final(current_call_frame)@),
    {
        let size = current_call_frame.stack.peek(2)?.to_usize_saturating();
        let src_offset = current_call_frame.stack.peek(1)?.to_usize_saturating();
        let dest_offset = current_call_frame.stack.peek(0)?.to_usize_saturating();
        let words_copied = match size.checked_add(WORD_SIZE - 1) {
            Some(sum) => sum / WORD_SIZE,
            None => {
                return Err(VMError::OverflowInArithmeticOp);
            },
        };
        let larger = if src_offset >= dest_offset {
            src_offset
        } else {
            dest_offset
        };
        let memory_byte_size = match larger.checked_add(size) {
            Some(sum) => sum,
            None => {
                return Err(VMError::OverflowInArithmeticOp);
            },
        };
        let memory_expansion_cost = current_call_frame.memory.expansion_cost(memory_byte_size)?;
        let gas_cost: u128 = gas_cost::MCOPY_STATIC as u128 + (gas_cost::MCOPY_DYNAMIC_BASE as u128)
            * (words_copied as u128) + memory_expansion_cost as u128;
        charge_total(current_call_frame, gas_cost)?;
        current_call_frame.stack.pop()?;
        current_call_frame.stack.pop()?;
        current_call_frame.stack.pop()?;
        if size > 0 {
            current_call_frame.memory.copy(src_offset, dest_offset, size);
        }
        Ok(OpcodeResult::Continue { pc_increment: 1 })
    }

    /// JUMP: takes a target off the stack and moves the program counter
    /// there. A target that is no jump destination ends the frame, with all
    /// of its gas used.
    pub fn op_jump(&mut self, current_call_frame: &mut CallFrame) -> (r: Result<
        OpcodeResult,
        VMError,
    >)
        requires
            old(current_call_frame).wf(),
        ensures
            final(current_call_frame).wf(),
            frame_advanced(old(current_call_frame)@, final(current_call_frame)@),
            *final(self) == *old(self),
            outcome(jump_spec(old(current_call_frame)@), 0, r, final(current_call_frame)@),
    {
        current_call_frame.increase_consumed_gas(gas_cost::JUMP)?;
        let jump_address = current_call_frame.stack.pop()?;
        if !current_call_frame.jump(jump_address) {
            current_call_frame.gas_used = current_call_frame.gas_limit;
            return Err(VMError::InvalidJump);
        }
        Ok(OpcodeResult::Continue { pc_increment: 0 })
    }

    /// JUMPI: takes a target and a condition off the stack and, where the
    /// condition is not zero, moves the program counter to the target. A
    /// target that is no jump destination then ends the frame, with all of
    /// its gas used.
    pub fn op_jumpi(&mut self, current_call_frame: &mut CallFrame) -> (r: Result<
        OpcodeResult,
        VMError,
    >)
        requires
            old(current_call_frame).wf(),
        ensures
            final(current_call_frame).wf(),
            frame_advanced(old(current_call_frame)@, final(current_call_frame)@),
            *final(self) == *old(self),
            outcome(
                jumpi_spec(old(current_call_frame)@),
                jumpi_increment(old(current_call_frame)@),
                r,
                final(current_call_frame)@,
            ),
    {
        current_call_frame.increase_consumed_gas(gas_cost::JUMPI)?;
        let jump_address = current_call_frame.stack.pop()?;
        let condition = current_call_frame.stack.pop()?;
        if condition.is_zero() {
            return Ok(OpcodeResult::Continue { pc_increment: 1 });
        }
        if !current_call_frame.jump(jump_address) {
            current_call_frame.gas_used = current_call_frame.gas_limit;
            return Err(VMError::InvalidJump);
        }
        Ok(OpcodeResult::Continue { pc_increment: 0 })
    }

    /// JUMPDEST: marks a place that a jump may land on, and does nothing.
    pub fn op_jumpdest(&mut self, current_call_frame: &mut CallFrame) -> (r: Result<
        OpcodeResult,
        VMError,
    >)
        requires
            old(current_call_frame).wf(),
        ensures
            final(current_call_frame).wf(),
            frame_advanced(old(current_call_frame)@, final(current_call_frame)@),
            *final(self) == *old(self),
            outcome(jumpdest_spec(old(current_call_frame)@), 1, r, final(current_call_frame)@),
    {
        current_call_frame.increase_consumed_gas(gas_cost::JUMPDEST)?;
        Ok(OpcodeResult::Continue { pc_increment: 1 })
    }

    /// PC: pushes the place in the code of this instruction.
    pub fn op_pc(&mut self, current_call_frame: &mut CallFrame) -> (r: Result<
        OpcodeResult,
        VMError,
    >)
        requires
            old(current_call_frame).wf(),
        ensures
            final(current_call_frame).wf(),
            frame_advanced(old(current_call_frame)@, final(current_call_frame)@),
            *final(self) == *old(self),
            outcome(
                charge_and_push(
                    old(current_call_frame)@,
                    gas_cost::PC as int,
                    word(old(current_call_frame)@.pc as nat),
                ),
                1,
                r,
                final(current_call_frame)@,
            ),
    {
        let pc = U256::from_usize(current_call_frame.pc);
        proof {
            lemma_word_of_view(pc);
        }
        charge_then_push(current_call_frame, gas_cost::PC, pc)
    }
}

} // verus!
