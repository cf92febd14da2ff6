//! One step of the machine: the instruction at the program counter is
//! looked up, its handler runs, and the program counter moves on.

use crate::account::AccountView;
use crate::call_frame::{
    charge_and_push, frame_advanced, opcode_at, CallFrame, FrameView,
};
use crate::db::Database;
use crate::errors::{InternalError, OpcodeResult, VMError};
use crate::gas_cost;
use crate::opcode_handlers::block::{
    blobbasefee_spec, blobhash_spec, block_hash_word, blockhash_outcome, selfbalance_outcome,
};
use crate::opcode_handlers::outcome;
use crate::opcode_handlers::stack_memory_storage_flow::{
    gas_spec, jump_spec, jumpdest_spec, jumpi_increment, jumpi_spec, mcopy_spec, mload_spec,
    mstore_bytes_spec, pop_spec, sload_spec, sstore_outcome,
    tload_spec, tstore_spec,
};
use crate::opcodes::Opcode;
use crate::primitives::{be_to_nat, word, H256};
use crate::vm::VM;
use vstd::prelude::*;

verus! {

/// Whether the handler of `opcode` may end with the result `r`, the frame
/// `frame_after` and the machine `vm_after`, when it starts from `frame` and
/// `vm`. STOP ends the frame; an opcode that has no handler here is invalid.
pub open spec fn opcode_outcome<D: Database>(
    opcode: Opcode,
    vm: VM<D>,
    frame: FrameView,
    r: Result<OpcodeResult, VMError>,
    frame_after: FrameView,
    vm_after: VM<D>,
) -> bool {
    match opcode {
        Opcode::STOP => r == Ok::<OpcodeResult, VMError>(OpcodeResult::Halt) && frame_after
            == frame && vm_after == vm,
        Opcode::BLOCKHASH => vm_after == vm && exists|looked_up: Option<H256>| #[trigger]
            blockhash_outcome(vm.db, frame, vm.env.block_number@, looked_up, r, frame_after),
        Opcode::COINBASE => vm_after == vm && outcome(
            charge_and_push(
                frame,
                gas_cost::COINBASE as int,
                word(be_to_nat(vm.env.coinbase.0@)),
            ),
            1,
            r,
            frame_after,
        ),
        Opcode::TIMESTAMP => vm_after == vm && outcome(
            charge_and_push(frame, gas_cost::TIMESTAMP as int, vm.env.timestamp),
            1,
            r,
            frame_after,
        ),
        Opcode::NUMBER => vm_after == vm && outcome(
            charge_and_push(frame, gas_cost::NUMBER as int, vm.env.block_number),
            1,
            r,
            frame_after,
        ),
        Opcode::PREVRANDAO => vm_after == vm && outcome(
            charge_and_push(
                frame,
                gas_cost::PREVRANDAO as int,
                block_hash_word(vm.env.prev_randao),
            ),
            1,
            r,
            frame_after,
        ),
        Opcode::GASLIMIT => vm_after == vm && outcome(
            charge_and_push(
                frame,
                gas_cost::GASLIMIT as int,
                word(vm.env.block_gas_limit as nat),
            ),
            1,
            r,
            frame_after,
        ),
        Opcode::CHAINID => vm_after == vm && outcome(
            charge_and_push(frame, gas_cost::CHAINID as int, vm.env.chain_id),
            1,
            r,
            frame_after,
        ),
        Opcode::SELFBALANCE => {
            &&& vm_after.env == vm.env
            &&& vm_after.db == vm.db
            &&& vm_after.accrued_substate == vm.accrued_substate
            &&& exists|account: AccountView| #[trigger]
                selfbalance_outcome(
                    vm.db,
                    frame,
                    vm.cache@,
                    account,
                    r,
                    frame_after,
                    vm_after.cache@,
                )
        },
        Opcode::BASEFEE => vm_after == vm && outcome(
            charge_and_push(frame, gas_cost::BASEFEE as int, vm.env.base_fee_per_gas),
            1,
            r,
            frame_after,
        ),
        Opcode::BLOBHASH => vm_after == vm && outcome(
            blobhash_spec(frame, vm.env.config.fork, vm.env.tx_blob_hashes@),
            1,
            r,
            frame_after,
        ),
        Opcode::BLOBBASEFEE => vm_after == vm && outcome(
            blobbasefee_spec(frame, vm.env.config.fork, vm.env.block_excess_blob_gas),
            1,
            r,
            frame_after,
        ),
        Opcode::POP => vm_after == vm && outcome(pop_spec(frame), 1, r, frame_after),
        Opcode::MLOAD => vm_after == vm && outcome(mload_spec(frame), 1, r, frame_after),
        Opcode::MSTORE => vm_after == vm && outcome(
            mstore_bytes_spec(frame, gas_cost::MSTORE_STATIC as int, 0),
            1,
            r,
            frame_after,
        ),
        Opcode::MSTORE8 => vm_after == vm && outcome(
            mstore_bytes_spec(frame, gas_cost::MSTORE8_STATIC as int, 31),
            1,
            r,
            frame_after,
        ),
        Opcode::SLOAD => vm_after == vm && outcome(
            sload_spec(frame, vm.cache@),
            1,
            r,
            frame_after,
        ),
        Opcode::SSTORE => {
            &&& vm_after.env == vm.env
            &&& vm_after.db == vm.db
            &&& vm_after.accrued_substate == vm.accrued_substate
            &&& exists|account: AccountView| #[trigger]
                sstore_outcome(vm.db, frame, vm.cache@, account, r, frame_after, vm_after.cache@)
        },
        Opcode::JUMP => vm_after == vm && outcome(jump_spec(frame), 0, r, frame_after),
        Opcode::JUMPI => vm_after == vm && outcome(
            jumpi_spec(frame),
            jumpi_increment(frame),
            r,
            frame_after,
        ),
        Opcode::PC => vm_after == vm && outcome(
            charge_and_push(frame, gas_cost::PC as int, word(frame.pc as nat)),
            1,
            r,
            frame_after,
        ),
        Opcode::MSIZE => vm_after == vm && outcome(
            charge_and_push(frame, gas_cost::MSIZE as int, word(frame.memory.len())),
            1,
            r,
            frame_after,
        ),
        Opcode::GAS => vm_after == vm && outcome(gas_spec(frame), 1, r, frame_after),
        Opcode::JUMPDEST => vm_after == vm && outcome(jumpdest_spec(frame), 1, r, frame_after),
        Opcode::TLOAD => vm_after == vm && outcome(tload_spec(frame), 1, r, frame_after),
        Opcode::TSTORE => vm_after == vm && outcome(tstore_spec(frame), 1, r, frame_after),
        Opcode::MCOPY => vm_after == vm && outcome(mcopy_spec(frame), 1, r, frame_after),
        _ => r == Err::<OpcodeResult, VMError>(VMError::InvalidOpcode) && frame_after == frame
            && vm_after == vm,
    }
}

/// Whether a step may end with the result `r` and the frame `frame_after`,
/// when the handler of the instruction ended with `handled` and `executed`:
/// where the handler says to go on, the program counter moves on by what it
/// says, and the result is the handler's.
pub open spec fn pc_advanced(
    handled: Result<OpcodeResult, VMError>,
    executed: FrameView,
    r: Result<OpcodeResult, VMError>,
    frame_after: FrameView,
) -> bool {
    match handled {
        Ok(OpcodeResult::Continue { pc_increment }) => if executed.pc + pc_increment
            > usize::MAX {
            r == Err::<OpcodeResult, VMError>(
                VMError::Internal(InternalError::ArithmeticOperationOverflow),
            ) && frame_after == executed
        } else {
            r == handled && frame_after == (FrameView {
                pc: (executed.pc + pc_increment) as usize,
                ..executed
            })
        },
        _ => r == handled && frame_after == executed,
    }
}

/// Whether a step from `frame` and `vm` may end as described: the handler of
/// the instruction at the program counter ran, and the program counter moved.
pub open spec fn step_outcome<D: Database>(
    vm: VM<D>,
    frame: FrameView,
    handled: Result<OpcodeResult, VMError>,
    executed: FrameView,
    r: Result<OpcodeResult, VMError>,
    frame_after: FrameView,
    vm_after: VM<D>,
) -> bool {
    &&& opcode_outcome(
        opcode_at(frame.bytecode, frame.pc as int),
        vm,
        frame,
        handled,
        executed,
        vm_after,
    )
    &&& pc_advanced(handled, executed, r, frame_after)
}

impl<D: Database> VM<D> {
    /// Runs the handler of `opcode` on the frame. STOP ends the frame; an
    /// opcode without a handler is invalid.
    pub fn execute_opcode(&mut self, opcode: Opcode, current_call_frame: &mut CallFrame) -> (r:
        Result<OpcodeResult, VMError>)
        requires
            old(current_call_frame).wf(),
            old(self).wf(),
        ensures
            final(current_call_frame).wf(),
            final(self).wf(),
            frame_advanced(old(current_call_frame)@, final(current_call_frame)@),
            opcode_outcome(
                opcode,
                *old(self),
                old(current_call_frame)@,
                r,
                final(current_call_frame)@,
                *final(self),
            ),
    {
        match opcode {
            Opcode::STOP => Ok(OpcodeResult::Halt),
            Opcode::BLOCKHASH => self.op_blockhash(current_call_frame),
            Opcode::COINBASE => self.op_coinbase(current_call_frame),
            Opcode::TIMESTAMP => self.op_timestamp(current_call_frame),
            Opcode::NUMBER => self.op_number(current_call_frame),
            Opcode::PREVRANDAO => self.op_prevrandao(current_call_frame),
            Opcode::GASLIMIT => self.op_gaslimit(current_call_frame),
            Opcode::CHAINID => self.op_chainid(current_call_frame),
            Opcode::SELFBALANCE => self.op_selfbalance(current_call_frame),
            Opcode::BASEFEE => self.op_basefee(current_call_frame),
            Opcode::BLOBHASH => self.op_blobhash(current_call_frame),
            Opcode::BLOBBASEFEE => self.op_blobbasefee(current_call_frame),
            Opcode::POP => self.op_pop(current_call_frame),
            Opcode::MLOAD => self.op_mload(current_call_frame),
            Opcode::MSTORE => self.op_mstore(current_call_frame),
            Opcode::MSTORE8 => self.op_mstore8(current_call_frame),
            Opcode::SLOAD => self.op_sload(current_call_frame),
            Opcode::SSTORE => self.op_sstore(current_call_frame),
            Opcode::JUMP => self.op_jump(current_call_frame),
            Opcode::JUMPI => self.op_jumpi(current_call_frame),
            Opcode::PC => self.op_pc(current_call_frame),
            Opcode::MSIZE => self.op_msize(current_call_frame),
            Opcode::GAS => self.op_gas(current_call_frame),
            Opcode::JUMPDEST => self.op_jumpdest(current_call_frame),
            Opcode::TLOAD => self.op_tload(current_call_frame),
            Opcode::TSTORE => self.op_tstore(current_call_frame),
            Opcode::MCOPY => self.op_mcopy(current_call_frame),
            _ => Err(VMError::InvalidOpcode),
        }
    }

    /// One step of the frame: runs the instruction at the program counter
    /// and, where it says to go on, moves the program counter on.
    pub fn step(&mut self, current_call_frame: &mut CallFrame) -> (r: Result<
        OpcodeResult,
        VMError,
    >)
        requires
            old(current_call_frame).wf(),
            old(self).wf(),
        ensures
            final(current_call_frame).wf(),
            final(self).wf(),
            frame_advanced(old(current_call_frame)@, final(current_call_frame)@),
            exists|handled: Result<OpcodeResult, VMError>, executed: FrameView| #[trigger]
                step_outcome(
                    *old(self),
                    old(current_call_frame)@,
                    handled,
                    executed,
                    r,
                    final(current_call_frame)@,
                    *final(self),
                ),
    {
        let opcode = current_call_frame.next_opcode();
        let handled = self.execute_opcode(opcode, current_call_frame);
        let ghost executed = current_call_frame@;
        let r = match handled {
            Ok(OpcodeResult::Continue { pc_increment }) => {
                match current_call_frame.pc.checked_add(pc_increment) {
                    Some(pc) => {
                        current_call_frame.pc = pc;
                        handled
                    },
                    None => Err(VMError::Internal(InternalError::ArithmeticOperationOverflow)),
                }
            },
            _ => handled,
        };
        assert(step_outcome(
            *old(self),
            old(current_call_frame)@,
            handled,
            executed,
            r,
            current_call_frame@,
            *self,
        ));
        r
    }
}

} // verus!
