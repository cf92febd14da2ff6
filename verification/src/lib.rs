//! The execution core of a stack machine for Ethereum bytecode: words,
//! stack and memory, the cache of accounts that a transaction works on, the
//! gas cost model, and the handlers of the opcodes for block information,
//! stack, memory, storage and control flow, with one step of the interpreter
//! on top of them.
//!
//! Every function states in its contract what it returns or changes, over
//! the views of the values it works on.

pub mod account;
pub mod buffer;
pub mod collections;
pub mod constants;
pub mod crypto;
pub mod db;
pub mod environment;
pub mod errors;
pub mod gas_cost;
pub mod interpreter;
pub mod memory;
pub mod opcode_handlers;
pub mod opcodes;
pub mod primitives;
pub mod rlp;
pub mod stack;
pub mod call_frame;
pub mod utils;
pub mod vm;
