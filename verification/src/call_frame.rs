//! The context of one call: its code and input, its stack and memory, its
//! gas, and where it stands in the code.

use crate::buffer::{bytes_as_slice, bytes_seq};
use crate::collections::AssocMap;
use crate::errors::{OutOfGasError, VMError};
use crate::memory::Memory;
use crate::opcodes::Opcode;
use crate::primitives::{Address, U256};
use crate::stack::{spec_peek, spec_pop, spec_push, Stack};
use crate::utils::{get_valid_jump_destinations, valid_jump_destination};
use bytes::Bytes;
use std::collections::HashSet;
use vstd::prelude::*;
use vstd::std_specs::iter::IteratorSpec;

verus! {

pub struct CallFrame {
    /// The most gas the frame may use.
    pub gas_limit: u64,
    /// The gas used so far.
    pub gas_used: u64,
    /// The place in the code of the instruction that is executed.
    pub pc: usize,
    /// Who made the call.
    pub msg_sender: Address,
    /// The account that the call runs as.
    pub to: Address,
    /// The account whose code runs.
    pub code_address: Address,
    /// The account that storage opcodes work on in place of `code_address`.
    pub delegate: Option<Address>,
    pub bytecode: Bytes,
    pub msg_value: U256,
    pub stack: Stack,
    pub memory: Memory,
    pub calldata: Bytes,
    /// Whether the call may change no state.
    pub is_static: bool,
    /// Storage that lasts for the transaction, by owner and key.
    pub transient_storage: AssocMap<(Address, U256), U256>,
    /// The places in `bytecode` that a jump may land on.
    pub valid_jump_destinations: HashSet<usize>,
}

/// A call frame as the specifications see it.
#[verifier::ext_equal]
pub struct FrameView {
    pub gas_limit: u64,
    pub gas_used: u64,
    pub pc: usize,
    pub msg_sender: Address,
    pub to: Address,
    pub code_address: Address,
    pub delegate: Option<Address>,
    pub bytecode: Seq<u8>,
    pub msg_value: U256,
    pub stack: Seq<U256>,
    pub memory: Seq<u8>,
    pub calldata: Seq<u8>,
    pub is_static: bool,
    pub transient_storage: Map<(Address, U256), U256>,
}

impl View for CallFrame {
    type V = FrameView;

    open spec fn view(&self) -> FrameView {
        FrameView {
            gas_limit: self.gas_limit,
            gas_used: self.gas_used,
            pc: self.pc,
            msg_sender: self.msg_sender,
            to: self.to,
            code_address: self.code_address,
            delegate: self.delegate,
            bytecode: bytes_seq(self.bytecode),
            msg_value: self.msg_value,
            stack: self.stack@,
            memory: self.memory@,
            calldata: bytes_seq(self.calldata),
            is_static: self.is_static,
            transient_storage: self.transient_storage@,
        }
    }
}

/// The instruction at `pc` in `code`; beyond the end of the code that is STOP.
pub open spec fn opcode_at(code: Seq<u8>, pc: int) -> Opcode {
    if 0 <= pc < code.len() {
        Opcode::decode(code[pc])
    } else {
        Opcode::STOP
    }
}

/// The frame after a charge of `gas`, or why the charge fails: the gas used
/// must stay below two to the 64 and within the frame's limit.
pub open spec fn spec_charge(frame: FrameView, gas: int) -> Result<FrameView, VMError> {
    if frame.gas_used + gas > u64::MAX {
        Err(VMError::OutOfGas(OutOfGasError::ConsumedGasOverflow))
    } else if frame.gas_used + gas > frame.gas_limit {
        Err(VMError::OutOfGas(OutOfGasError::MaxGasLimitExceeded))
    } else {
        Ok(FrameView { gas_used: (frame.gas_used + gas) as u64, ..frame })
    }
}

/// What a handler makes of a frame: the frame that it leaves where it
/// succeeds, or the error that ends the frame and the frame as it stood then.
pub type Transition = Result<FrameView, (VMError, FrameView)>;

/// The frame after a charge of `gas`, or the failure of the charge on the
/// frame as it was.
pub open spec fn frame_charge(frame: FrameView, gas: int) -> Transition {
    match spec_charge(frame, gas) {
        Ok(charged) => Ok(charged),
        Err(e) => Err((e, frame)),
    }
}

/// The frame with its top word taken off, and that word.
pub open spec fn frame_pop(frame: FrameView) -> Result<(FrameView, U256), (VMError, FrameView)> {
    match spec_pop(frame.stack) {
        Ok((stack, top)) => Ok((FrameView { stack, ..frame }, top)),
        Err(e) => Err((e, frame)),
    }
}

/// The word `depth` places below the top of the frame's stack.
pub open spec fn frame_peek(frame: FrameView, depth: int) -> Result<U256, (VMError, FrameView)> {
    match spec_peek(frame.stack, depth) {
        Ok(value) => Ok(value),
        Err(e) => Err((e, frame)),
    }
}

/// The frame with `value` put on its stack.
pub open spec fn frame_push(frame: FrameView, value: U256) -> Transition {
    match spec_push(frame.stack, value) {
        Ok(stack) => Ok(FrameView { stack, ..frame }),
        Err(e) => Err((e, frame)),
    }
}

/// The frame after a charge of `gas` and a push of `value`.
pub open spec fn charge_and_push(frame: FrameView, gas: int, value: U256) -> Transition {
    match frame_charge(frame, gas) {
        Ok(charged) => frame_push(charged, value),
        Err(e) => Err(e),
    }
}

/// What a frame keeps while it runs, and what only grows: its code, its
/// input, its parties and its gas limit stay; the gas used never goes down
/// and never passes the limit; the memory never shrinks; the stack stays
/// within its limit.
pub open spec fn frame_advanced(before: FrameView, after: FrameView) -> bool {
    &&& after.gas_limit == before.gas_limit
    &&& before.gas_used <= after.gas_used <= after.gas_limit
    &&& before.memory.len() <= after.memory.len()
    &&& after.stack.len() <= crate::constants::STACK_LIMIT
    &&& after.bytecode == before.bytecode
    &&& after.calldata == before.calldata
    &&& after.msg_sender == before.msg_sender
    &&& after.to == before.to
    &&& after.code_address == before.code_address
    &&& after.delegate == before.delegate
    &&& after.msg_value == before.msg_value
    &&& after.is_static == before.is_static
}

/// A charge never lowers the gas used, and leaves it within the limit.
pub proof fn lemma_charge_monotone(frame: FrameView, gas: int)
    requires
        0 <= gas,
        frame.gas_used <= frame.gas_limit,
    ensures
        spec_charge(frame, gas) matches Ok(after) ==> frame.gas_used <= after.gas_used
            <= after.gas_limit && after.gas_limit == frame.gas_limit,
{
}

impl CallFrame {
    /// Stack, memory and transient storage are well formed, the gas used is
    /// within the limit, and the jump destinations are those of the code.
    pub open spec fn wf(&self) -> bool {
        &&& self.stack.wf()
        &&& self.memory.wf()
        &&& self.transient_storage.wf()
        &&& self.gas_used <= self.gas_limit
        &&& forall|pc: usize| #[trigger]
            self.valid_jump_destinations@.contains(pc) <==> valid_jump_destination(
                bytes_seq(self.bytecode),
                pc as int,
            )
    }

    /// Whether the frame is well formed. The jump destinations are held
    /// against those that the code has.
    pub fn is_well_formed(&self) -> (r: bool)
        ensures
            r == self.wf(),
    {
        if !self.stack.is_well_formed() || !self.memory.is_well_formed()
            || !self.transient_storage.is_well_formed() || self.gas_used > self.gas_limit {
            return false;
        }
        let expected = match get_valid_jump_destinations(&self.bytecode) {
            Ok(destinations) => destinations,
            Err(_) => {
                return false;
            },
        };
        let ghost code = bytes_seq(self.bytecode);
        let ghost held = self.valid_jump_destinations@;
        proof {
            vstd::std_specs::hash::axiom_spec_hash_keys_iter(&self.valid_jump_destinations);
            vstd::std_specs::hash::axiom_spec_hash_keys_iter(&expected);
            vstd::seq_lib::seq_to_set_is_finite(
                vstd::std_specs::hash::spec_hash_keys_iter(
                    &self.valid_jump_destinations,
                ).remaining().unref(),
            );
            vstd::seq_lib::seq_to_set_is_finite(
                vstd::std_specs::hash::spec_hash_keys_iter(&expected).remaining().unref(),
            );
            assert(held.finite() && expected@.finite());
        }
        if expected.len() != self.valid_jump_destinations.len() {
            proof {
                if self.wf() {
                    assert(held =~= expected@);
                }
            }
            return false;
        }
        let code_len = bytes_as_slice(&self.bytecode).len();
        let mut pc: usize = 0;
        while pc < code_len
            invariant
                pc <= code_len,
                held == self.valid_jump_destinations@,
                code == bytes_seq(self.bytecode),
                forall|q: usize| #[trigger]
                    expected@.contains(q) <==> valid_jump_destination(code, q as int),
                forall|q: usize| q < pc ==> held.contains(q) == expected@.contains(q),
            decreases code_len - pc,
        {
            if self.valid_jump_destinations.contains(&pc) != expected.contains(&pc) {
                return false;
            }
            pc += 1;
        }
        proof {
            assert forall|q: usize| expected@.contains(q) implies held.contains(q) by {
                assert(valid_jump_destination(code, q as int));
            }
            assert(expected@.subset_of(held));
            vstd::set_lib::lemma_subset_equality(expected@, held);
        }
        true
    }

    /// A frame at the start of its code, with nothing used and nothing stored.
    pub fn new(
        msg_sender: Address,
        to: Address,
        code_address: Address,
        delegate: Option<Address>,
        bytecode: Bytes,
        msg_value: U256,
        calldata: Bytes,
        is_static: bool,
        gas_limit: u64,
    ) -> (r: CallFrame)
        ensures
            r.wf(),
            r@ == (FrameView {
                gas_limit,
                gas_used: 0,
                pc: 0,
                msg_sender,
                to,
                code_address,
                delegate,
                bytecode: bytes_seq(bytecode),
                msg_value,
                stack: Seq::empty(),
                memory: Seq::empty(),
                calldata: bytes_seq(calldata),
                is_static,
                transient_storage: Map::empty(),
            }),
    {
        let valid_jump_destinations = match get_valid_jump_destinations(&bytecode) {
            Ok(destinations) => destinations,
            Err(_) => HashSet::new(),
        };
        CallFrame {
            gas_limit,
            gas_used: 0,
            pc: 0,
            msg_sender,
            to,
            code_address,
            delegate,
            bytecode,
            msg_value,
            stack: Stack::new(),
            memory: Memory::new(),
            calldata,
            is_static,
            transient_storage: AssocMap::new(),
            valid_jump_destinations,
        }
    }

    /// The instruction at the program counter; beyond the end of the code
    /// that is STOP.
    pub fn next_opcode(&self) -> (r: Opcode)
        ensures
            r == opcode_at(self@.bytecode, self@.pc as int),
    {
        let code = bytes_as_slice(&self.bytecode);
        if self.pc < code.len() {
            Opcode::from_u8(code[self.pc])
        } else {
            Opcode::STOP
        }
    }

    /// Charges `gas` to the frame, unless that takes it over its limit.
    pub fn increase_consumed_gas(&mut self, gas: u64) -> (r: Result<(), VMError>)
        requires
            old(self).wf(),
        ensures
            final(self).wf(),
            match spec_charge(old(self)@, gas as int) {
                Ok(frame) => r is Ok && final(self)@ == frame,
                Err(e) => r == Err::<(), _>(e) && final(self)@ == old(self)@,
            },
    {
        let potential_consumed_gas = match self.gas_used.checked_add(gas) {
            Some(sum) => sum,
            None => {
                return Err(VMError::OutOfGas(OutOfGasError::ConsumedGasOverflow));
            },
        };
        if potential_consumed_gas > self.gas_limit {
            return Err(VMError::OutOfGas(OutOfGasError::MaxGasLimitExceeded));
        }
        self.gas_used = potential_consumed_gas;
        Ok(())
    }

    /// Moves the program counter to `jump_address` where a jump may land
    /// there, and says whether it did.
    pub fn jump(&mut self, jump_address: U256) -> (r: bool)
        requires
            old(self).wf(),
        ensures
            final(self).wf(),
            r == valid_jump_destination(old(self)@.bytecode, jump_address@ as int),
            r ==> final(self)@ == (FrameView { pc: jump_address@ as usize, ..old(self)@ }),
            !r ==> final(self)@ == old(self)@,
    {
        let code_len = bytes_as_slice(&self.bytecode).len();
        assert(code_len == old(self)@.bytecode.len());
        match jump_address.to_usize() {
            Some(target) => {
                if self.valid_jump_destinations.contains(&target) {
                    self.pc = target;
                    true
                } else {
                    false
                }
            },
            None => false,
        }
    }
}

} // verus!
