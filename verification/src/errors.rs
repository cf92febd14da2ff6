//! The outcomes of executing an opcode.
//!
//! A `VMError` ends the call frame that raised it. Its `Internal` variant is
//! kept apart from the others: it reports a broken invariant of the host,
//! never an invalid program.

use vstd::prelude::*;

verus! {

/// The ways in which a gas computation or a gas charge can fail.
#[derive(Clone, Copy, Debug, PartialEq, Eq, Structural)]
pub enum OutOfGasError {
    /// The gas used by the frame, with the charge added, does not fit in 64 bits.
    ConsumedGasOverflow,
    /// The gas used by the frame, with the charge added, exceeds the frame's limit.
    MaxGasLimitExceeded,
    /// The cost of the calldata does not fit in 64 bits.
    GasUsedOverflow,
    /// The cost of growing the memory does not fit in the machine's word.
    MemoryExpansionCostOverflow,
}

/// Failures that no valid host state leads to, each under its own tag.
#[derive(Clone, Copy, Debug, PartialEq, Eq, Structural)]
pub enum InternalError {
    /// A sum or a product of words does not fit in a word.
    ArithmeticOperationOverflow,
    /// A division by zero.
    ArithmeticOperationDividedByZero,
    /// The cache lost an account that was just put into it.
    AccountNotFound,
    /// The code of the account is no delegation designator.
    AccountNotDelegated,
    /// The block gives no excess blob gas, though its fork has blobs.
    ExcessBlobGasShouldNotBeNone,
    /// The cost of the authorizations does not fit in 64 bits.
    GasOverflow,
    /// A state that the protocol rules out, with a number that tells where.
    UndefinedState(i32),
}

/// Why a call frame stopped.
#[derive(Clone, Copy, Debug, PartialEq, Eq, Structural)]
pub enum VMError {
    StackUnderflow,
    StackOverflow,
    InvalidJump,
    InvalidOpcode,
    OpcodeNotAllowedInStaticContext,
    VeryLargeNumber,
    OverflowInArithmeticOp,
    BalanceOverflow,
    BalanceUnderflow,
    NonceOverflow,
    NonceUnderflow,
    OutOfGas(OutOfGasError),
    Internal(InternalError),
}

/// What the interpreter does after an opcode that succeeded.
#[derive(Clone, Copy, Debug, PartialEq, Eq, Structural)]
pub enum OpcodeResult {
    /// Go on, after adding `pc_increment` to the program counter.
    Continue { pc_increment: usize },
    /// The frame is done.
    Halt,
}

} // verus!
