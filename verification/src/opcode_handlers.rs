//! The handlers of the opcodes. Each one charges its gas, takes its operands
//! off the stack, does its work and puts its results back, and says in its
//! contract what frame that leaves or which error ends the frame.

use crate::call_frame::{FrameView, Transition};
use crate::errors::{OpcodeResult, VMError};
use vstd::prelude::*;

pub mod block;
pub mod stack_memory_storage_flow;

verus! {

/// Whether a handler ended as `expected` says: with the frame that it names
/// and the program counter to be moved on by `pc_increment`, or with the
/// error and the frame that it names.
pub open spec fn outcome(
    expected: Transition,
    pc_increment: usize,
    result: Result<OpcodeResult, VMError>,
    frame_after: FrameView,
) -> bool {
    match expected {
        Ok(frame) => result == Ok::<OpcodeResult, VMError>(OpcodeResult::Continue { pc_increment })
            && frame_after == frame,
        Err((e, frame)) => result == Err::<OpcodeResult, VMError>(e) && frame_after == frame,
    }
}

} // verus!
