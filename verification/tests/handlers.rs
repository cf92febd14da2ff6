use bytes::Bytes;
use levm::account::{Account, AccountInfo, StorageSlot};
use levm::call_frame::CallFrame;
use levm::db::Database;
use levm::environment::{EVMConfig, Environment, Fork, ForkBlobSchedule};
use levm::errors::{InternalError, OpcodeResult, OutOfGasError, VMError};
use levm::opcode_handlers::block::{block_hash_to_word, charge_then_push};
use levm::primitives::{Address, H256, U256};
use levm::vm::VM;

struct TestDb {
    accounts: Vec<(Address, AccountInfo)>,
    hashes: Vec<(u64, H256)>,
}

impl Database for TestDb {
    fn get_account_info(&self, address: Address) -> AccountInfo {
        for (known, info) in &self.accounts {
            if *known == address {
                return info.clone();
            }
        }
        AccountInfo::empty()
    }

    fn get_block_hash(&self, block_number: u64) -> Option<H256> {
        self.hashes.iter().find(|(number, _)| *number == block_number).map(|(_, hash)| *hash)
    }
}

const NEXT: Result<OpcodeResult, VMError> = Ok(OpcodeResult::Continue { pc_increment: 1 });
const OUT_OF_GAS: Result<OpcodeResult, VMError> =
    Err(VMError::OutOfGas(OutOfGasError::MaxGasLimitExceeded));

fn addr(byte: u8) -> Address {
    Address([byte; 20])
}

fn n(value: u64) -> U256 {
    U256::from_u64(value)
}

fn environment(fork: Fork) -> Environment {
    Environment {
        origin: addr(0xaa),
        gas_limit: 1_000_000,
        config: EVMConfig {
            fork,
            blob_schedule: ForkBlobSchedule {
                target: 3,
                max: 6,
                base_fee_update_fraction: 3338477,
            },
        },
        block_number: n(1000),
        coinbase: addr(0xcb),
        timestamp: n(1_700_000_000),
        prev_randao: Some(H256([0x11; 32])),
        chain_id: n(1337),
        base_fee_per_gas: n(7),
        gas_price: n(9),
        block_excess_blob_gas: Some(n(33384770)),
        block_blob_gas_used: None,
        tx_blob_hashes: vec![H256([0x01; 32]), H256([0x02; 32])],
        tx_max_fee_per_blob_gas: None,
        block_gas_limit: 30_000_000,
    }
}

fn machine(fork: Fork) -> VM<TestDb> {
    let db = TestDb {
        accounts: vec![(
            addr(2),
            AccountInfo { balance: n(4242), nonce: 1, bytecode: Bytes::new() },
        )],
        hashes: vec![(999, H256([0x99; 32])), (744, H256([0x44; 32])), (5, H256([0x05; 32]))],
    };
    VM::new(environment(fork), db)
}

fn frame_with(code: Vec<u8>, gas_limit: u64, is_static: bool) -> CallFrame {
    CallFrame::new(
        addr(1),
        addr(2),
        addr(3),
        None,
        Bytes::from(code),
        U256::zero(),
        Bytes::new(),
        is_static,
        gas_limit,
    )
}

fn frame() -> CallFrame {
    frame_with(vec![0x60, 0x5b, 0x5b], 1000, false)
}

fn repeat_bytes(byte: u8) -> U256 {
    U256::from_big_endian(&[byte; 32])
}

#[test]
fn new_frame_starts_at_zero() {
    let frame = frame();
    assert_eq!(frame.pc, 0);
    assert_eq!(frame.gas_used, 0);
    assert_eq!(frame.gas_limit, 1000);
    assert!(frame.stack.is_empty());
    assert_eq!(frame.memory.len(), 0);
    assert!(frame.valid_jump_destinations.contains(&2));
    assert!(!frame.valid_jump_destinations.contains(&1));
}

#[test]
fn gas_charge_stops_at_the_limit() {
    let mut frame = frame_with(vec![], 10, false);
    assert_eq!(frame.increase_consumed_gas(4), Ok(()));
    assert_eq!(frame.increase_consumed_gas(6), Ok(()));
    assert_eq!(frame.gas_used, 10);
    assert_eq!(
        frame.increase_consumed_gas(1),
        Err(VMError::OutOfGas(OutOfGasError::MaxGasLimitExceeded))
    );
    assert_eq!(frame.gas_used, 10);
    assert_eq!(
        frame.increase_consumed_gas(u64::MAX),
        Err(VMError::OutOfGas(OutOfGasError::ConsumedGasOverflow))
    );
    assert_eq!(frame.gas_used, 10);
    assert_eq!(frame.increase_consumed_gas(0), Ok(()));
}

#[test]
fn environment_opcodes_push_their_values() {
    let mut vm = machine(Fork::Cancun);
    let mut frame = frame();
    assert_eq!(vm.op_coinbase(&mut frame), NEXT);
    assert_eq!(frame.stack.pop(), Ok(U256 { l0: 0xcbcbcbcbcbcbcbcb, l1: 0xcbcbcbcbcbcbcbcb, l2: 0xcbcbcbcb, l3: 0 }));
    assert_eq!(vm.op_timestamp(&mut frame), NEXT);
    assert_eq!(frame.stack.pop(), Ok(n(1_700_000_000)));
    assert_eq!(vm.op_number(&mut frame), NEXT);
    assert_eq!(frame.stack.pop(), Ok(n(1000)));
    assert_eq!(vm.op_prevrandao(&mut frame), NEXT);
    assert_eq!(frame.stack.pop(), Ok(repeat_bytes(0x11)));
    assert_eq!(vm.op_gaslimit(&mut frame), NEXT);
    assert_eq!(frame.stack.pop(), Ok(n(30_000_000)));
    assert_eq!(vm.op_chainid(&mut frame), NEXT);
    assert_eq!(frame.stack.pop(), Ok(n(1337)));
    assert_eq!(vm.op_basefee(&mut frame), NEXT);
    assert_eq!(frame.stack.pop(), Ok(n(7)));
    assert_eq!(frame.gas_used, 2 * 7);
    assert!(frame.stack.is_empty());
    assert_eq!(frame.pc, 0);
}

#[test]
fn prevrandao_is_zero_without_randomness() {
    let mut vm = machine(Fork::Cancun);
    vm.env.prev_randao = None;
    let mut frame = frame();
    assert_eq!(vm.op_prevrandao(&mut frame), NEXT);
    assert_eq!(frame.stack.pop(), Ok(U256::zero()));
}

#[test]
fn push_opcode_runs_out_of_gas() {
    let mut vm = machine(Fork::Cancun);
    let mut frame = frame_with(vec![], 3, false);
    assert_eq!(vm.op_number(&mut frame), NEXT);
    assert_eq!(vm.op_number(&mut frame), OUT_OF_GAS);
    assert_eq!(frame.stack.len(), 1);
    assert_eq!(frame.gas_used, 2);
}

#[test]
fn push_opcode_overflows_a_full_stack() {
    let mut vm = machine(Fork::Cancun);
    let mut frame = frame_with(vec![], 1_000_000, false);
    for _ in 0..1024 {
        assert_eq!(vm.op_chainid(&mut frame), NEXT);
    }
    assert_eq!(vm.op_chainid(&mut frame), Err(VMError::StackOverflow));
    assert_eq!(frame.stack.len(), 1024);
    assert_eq!(charge_then_push(&mut frame, 1, n(1)), Err(VMError::StackOverflow));
}

#[test]
fn selfbalance_reads_the_account_the_frame_runs_as() {
    let mut vm = machine(Fork::Cancun);
    let mut frame = frame();
    assert_eq!(vm.op_selfbalance(&mut frame), NEXT);
    assert_eq!(frame.stack.pop(), Ok(n(4242)));
    assert_eq!(frame.gas_used, 5);
    assert!(vm.cache.is_account_cached(&addr(2)));
    // the cache answers from now on
    vm.cache.get_account_mut(&addr(2)).unwrap().info.balance = n(1);
    assert_eq!(vm.op_selfbalance(&mut frame), NEXT);
    assert_eq!(frame.stack.pop(), Ok(n(1)));
    let mut poor = frame_with(vec![], 4, false);
    assert_eq!(vm.op_selfbalance(&mut poor), OUT_OF_GAS);
}

fn blockhash_of(vm: &mut VM<TestDb>, number: U256) -> U256 {
    let mut frame = frame();
    frame.stack.push(number).unwrap();
    assert_eq!(vm.op_blockhash(&mut frame), NEXT);
    assert_eq!(frame.gas_used, 20);
    assert_eq!(frame.stack.len(), 1);
    frame.stack.pop().unwrap()
}

#[test]
fn blockhash_of_a_known_block() {
    let mut vm = machine(Fork::Cancun);
    assert_eq!(blockhash_of(&mut vm, n(999)), repeat_bytes(0x99));
    assert_eq!(blockhash_of(&mut vm, n(744)), repeat_bytes(0x44));
}

#[test]
fn blockhash_outside_the_window_is_zero() {
    let mut vm = machine(Fork::Cancun);
    // the current block and later ones
    assert_eq!(blockhash_of(&mut vm, n(1000)), U256::zero());
    assert_eq!(blockhash_of(&mut vm, n(1001)), U256::zero());
    assert_eq!(blockhash_of(&mut vm, U256::max_value()), U256::zero());
    // more than 256 blocks back, though the database knows the hash
    assert_eq!(blockhash_of(&mut vm, n(5)), U256::zero());
    assert_eq!(blockhash_of(&mut vm, n(743)), U256::zero());
}

#[test]
fn blockhash_of_an_unknown_block_is_zero() {
    let mut vm = machine(Fork::Cancun);
    assert_eq!(blockhash_of(&mut vm, n(998)), U256::zero());
    assert_eq!(blockhash_of(&mut vm, n(745)), U256::zero());
    assert_eq!(block_hash_to_word(None), U256::zero());
    assert_eq!(block_hash_to_word(Some(H256([0x99; 32]))), repeat_bytes(0x99));
}

#[test]
fn blockhash_near_the_first_block() {
    let mut vm = machine(Fork::Cancun);
    vm.env.block_number = n(10);
    assert_eq!(blockhash_of(&mut vm, n(5)), repeat_bytes(0x05));
    assert_eq!(blockhash_of(&mut vm, n(0)), U256::zero());
    assert_eq!(blockhash_of(&mut vm, n(10)), U256::zero());
}

#[test]
fn blockhash_needs_gas_and_an_operand() {
    let mut vm = machine(Fork::Cancun);
    let mut frame = frame();
    assert_eq!(vm.op_blockhash(&mut frame), Err(VMError::StackUnderflow));
    let mut poor = frame_with(vec![], 19, false);
    poor.stack.push(n(999)).unwrap();
    assert_eq!(vm.op_blockhash(&mut poor), OUT_OF_GAS);
    assert_eq!(poor.stack.len(), 1);
}

#[test]
fn blockhash_of_a_block_number_beyond_64_bits() {
    let mut vm = machine(Fork::Cancun);
    vm.env.block_number = U256 { l0: 10, l1: 1, l2: 0, l3: 0 };
    let mut frame = frame();
    frame.stack.push(U256 { l0: 9, l1: 1, l2: 0, l3: 0 }).unwrap();
    assert_eq!(vm.op_blockhash(&mut frame), Err(VMError::VeryLargeNumber));
}

#[test]
fn blobhash_gives_the_hash_at_the_index() {
    let mut vm = machine(Fork::Cancun);
    let mut frame = frame();
    frame.stack.push(n(1)).unwrap();
    assert_eq!(vm.op_blobhash(&mut frame), NEXT);
    assert_eq!(frame.stack.pop(), Ok(repeat_bytes(0x02)));
    frame.stack.push(n(0)).unwrap();
    assert_eq!(vm.op_blobhash(&mut frame), NEXT);
    assert_eq!(frame.stack.pop(), Ok(repeat_bytes(0x01)));
    assert_eq!(frame.gas_used, 6);
}

#[test]
fn blobhash_beyond_the_hashes_is_zero() {
    let mut vm = machine(Fork::Cancun);
    let mut frame = frame();
    frame.stack.push(n(2)).unwrap();
    assert_eq!(vm.op_blobhash(&mut frame), NEXT);
    assert_eq!(frame.stack.pop(), Ok(U256::zero()));
    frame.stack.push(U256::max_value()).unwrap();
    assert_eq!(vm.op_blobhash(&mut frame), NEXT);
    assert_eq!(frame.stack.pop(), Ok(U256::zero()));
    assert_eq!(vm.op_blobhash(&mut frame), Err(VMError::StackUnderflow));
}

#[test]
fn blob_opcodes_need_cancun() {
    let mut vm = machine(Fork::Shanghai);
    let mut frame = frame();
    frame.stack.push(n(0)).unwrap();
    assert_eq!(vm.op_blobhash(&mut frame), Err(VMError::InvalidOpcode));
    assert_eq!(vm.op_blobbasefee(&mut frame), Err(VMError::InvalidOpcode));
    assert_eq!(frame.gas_used, 0);
    assert_eq!(frame.stack.len(), 1);
    let mut vm = machine(Fork::Prague);
    assert_eq!(vm.op_blobhash(&mut frame), NEXT);
}

#[test]
fn blobbasefee_prices_the_excess() {
    let mut vm = machine(Fork::Cancun);
    let mut frame = frame();
    assert_eq!(vm.op_blobbasefee(&mut frame), NEXT);
    assert_eq!(frame.stack.pop(), Ok(n(22026)));
    assert_eq!(frame.gas_used, 2);
    vm.env.block_excess_blob_gas = Some(U256::zero());
    assert_eq!(vm.op_blobbasefee(&mut frame), NEXT);
    assert_eq!(frame.stack.pop(), Ok(n(1)));
    vm.env.block_excess_blob_gas = None;
    assert_eq!(
        vm.op_blobbasefee(&mut frame),
        Err(VMError::Internal(InternalError::ExcessBlobGasShouldNotBeNone))
    );
}

#[test]
fn pop_takes_the_top() {
    let mut vm = machine(Fork::Cancun);
    let mut frame = frame();
    frame.stack.push(n(1)).unwrap();
    frame.stack.push(n(2)).unwrap();
    assert_eq!(vm.op_pop(&mut frame), NEXT);
    assert_eq!(frame.gas_used, 2);
    assert_eq!(frame.stack.pop(), Ok(n(1)));
    assert_eq!(vm.op_pop(&mut frame), Err(VMError::StackUnderflow));
}

#[test]
fn transient_storage_is_written_and_read() {
    let mut vm = machine(Fork::Cancun);
    let mut frame = frame();
    // never written: zero
    frame.stack.push(n(7)).unwrap();
    assert_eq!(vm.op_tload(&mut frame), NEXT);
    assert_eq!(frame.stack.pop(), Ok(U256::zero()));
    // value below, key on top
    frame.stack.push(n(55)).unwrap();
    frame.stack.push(n(7)).unwrap();
    assert_eq!(vm.op_tstore(&mut frame), NEXT);
    assert!(frame.stack.is_empty());
    frame.stack.push(n(7)).unwrap();
    assert_eq!(vm.op_tload(&mut frame), NEXT);
    assert_eq!(frame.stack.pop(), Ok(n(55)));
    frame.stack.push(n(8)).unwrap();
    assert_eq!(vm.op_tload(&mut frame), NEXT);
    assert_eq!(frame.stack.pop(), Ok(U256::zero()));
    assert_eq!(frame.gas_used, 400);
}

#[test]
fn transient_storage_is_keyed_by_the_caller() {
    let mut vm = machine(Fork::Cancun);
    let mut frame = frame();
    frame.stack.push(n(55)).unwrap();
    frame.stack.push(n(7)).unwrap();
    assert_eq!(vm.op_tstore(&mut frame), NEXT);
    frame.msg_sender = addr(9);
    frame.stack.push(n(7)).unwrap();
    assert_eq!(vm.op_tload(&mut frame), NEXT);
    assert_eq!(frame.stack.pop(), Ok(U256::zero()));
    frame.msg_sender = addr(1);
    frame.stack.push(n(7)).unwrap();
    assert_eq!(vm.op_tload(&mut frame), NEXT);
    assert_eq!(frame.stack.pop(), Ok(n(55)));
}

#[test]
fn tstore_is_refused_in_a_static_call() {
    let mut vm = machine(Fork::Cancun);
    let mut frame = frame_with(vec![], 1000, true);
    frame.stack.push(n(55)).unwrap();
    frame.stack.push(n(7)).unwrap();
    assert_eq!(vm.op_tstore(&mut frame), Err(VMError::OpcodeNotAllowedInStaticContext));
    assert_eq!(frame.stack.len(), 2);
    assert_eq!(vm.op_tload(&mut frame), NEXT);
}

#[test]
fn tstore_needs_two_operands_and_gas() {
    let mut vm = machine(Fork::Cancun);
    let mut frame = frame();
    frame.stack.push(n(7)).unwrap();
    assert_eq!(vm.op_tstore(&mut frame), Err(VMError::StackUnderflow));
    let mut poor = frame_with(vec![], 99, false);
    assert_eq!(vm.op_tstore(&mut poor), OUT_OF_GAS);
    assert_eq!(vm.op_tload(&mut poor), OUT_OF_GAS);
}

#[test]
fn mstore_then_mload_gives_the_word_back() {
    let mut vm = machine(Fork::Cancun);
    let mut frame = frame();
    let value = U256 { l0: 1, l1: 2, l2: 3, l3: 4 };
    frame.stack.push(value).unwrap();
    frame.stack.push(n(40)).unwrap();
    assert_eq!(vm.op_mstore(&mut frame), NEXT);
    assert!(frame.stack.is_empty());
    assert_eq!(frame.memory.len(), 96);
    // three words of new memory: 3 + 9
    assert_eq!(frame.gas_used, 12);
    frame.stack.push(n(40)).unwrap();
    assert_eq!(vm.op_mload(&mut frame), NEXT);
    assert_eq!(frame.stack.pop(), Ok(value));
    // touching grown memory again costs the static part only
    assert_eq!(frame.gas_used, 15);
    frame.stack.push(n(8)).unwrap();
    assert_eq!(vm.op_mload(&mut frame), NEXT);
    assert_eq!(frame.stack.pop(), Ok(U256 { l0: 0, l1: 0, l2: 0, l3: 0 }));
    frame.stack.push(n(16)).unwrap();
    assert_eq!(vm.op_mload(&mut frame), NEXT);
    assert_eq!(frame.stack.pop(), Ok(U256 { l0: 0x04, l1: 0, l2: 0, l3: 0 }));
}

#[test]
fn mload_grows_the_memory() {
    let mut vm = machine(Fork::Cancun);
    let mut frame = frame();
    frame.stack.push(n(1)).unwrap();
    assert_eq!(vm.op_mload(&mut frame), NEXT);
    assert_eq!(frame.stack.pop(), Ok(U256::zero()));
    assert_eq!(frame.memory.len(), 64);
    assert_eq!(frame.gas_used, 3 + 6);
    assert_eq!(vm.op_msize(&mut frame), NEXT);
    assert_eq!(frame.stack.pop(), Ok(n(64)));
    assert_eq!(frame.gas_used, 3 + 6 + 2);
}

#[test]
fn mstore8_writes_the_lowest_byte() {
    let mut vm = machine(Fork::Cancun);
    let mut frame = frame();
    frame.stack.push(n(0x1234)).unwrap();
    frame.stack.push(n(1)).unwrap();
    assert_eq!(vm.op_mstore8(&mut frame), NEXT);
    assert_eq!(frame.memory.len(), 32);
    assert_eq!(frame.gas_used, 6);
    assert_eq!(frame.memory.load_range(0, 3), vec![0, 0x34, 0]);
}

#[test]
fn memory_opcodes_fail_on_far_offsets() {
    let mut vm = machine(Fork::Cancun);
    let error = Err(VMError::OutOfGas(OutOfGasError::MemoryExpansionCostOverflow));
    let mut frame = frame();
    frame.stack.push(U256::max_value()).unwrap();
    assert_eq!(vm.op_mload(&mut frame), error);
    frame.stack.push(n(1)).unwrap();
    frame.stack.push(U256::max_value()).unwrap();
    assert_eq!(vm.op_mstore(&mut frame), error);
    frame.stack.push(n(1)).unwrap();
    frame.stack.push(n(u64::MAX)).unwrap();
    assert_eq!(vm.op_mstore8(&mut frame), error);
    assert_eq!(frame.memory.len(), 0);
    // an offset within reach whose price is beyond the limit
    let mut frame = frame_with(vec![], 1000, false);
    frame.stack.push(n(1 << 20)).unwrap();
    assert_eq!(vm.op_mload(&mut frame), OUT_OF_GAS);
    assert_eq!(frame.memory.len(), 0);
}

#[test]
fn memory_opcodes_need_their_operands() {
    let mut vm = machine(Fork::Cancun);
    let mut frame = frame();
    assert_eq!(vm.op_mload(&mut frame), Err(VMError::StackUnderflow));
    assert_eq!(vm.op_mstore(&mut frame), Err(VMError::StackUnderflow));
    frame.stack.push(n(0)).unwrap();
    assert_eq!(vm.op_mstore(&mut frame), Err(VMError::StackUnderflow));
    frame.stack.push(n(0)).unwrap();
    assert_eq!(vm.op_mstore8(&mut frame), Err(VMError::StackUnderflow));
    assert_eq!(vm.op_mcopy(&mut frame), Err(VMError::StackUnderflow));
}

fn store_word(vm: &mut VM<TestDb>, frame: &mut CallFrame, offset: u64, bytes: [u8; 32]) {
    frame.stack.push(U256::from_big_endian(&bytes)).unwrap();
    frame.stack.push(n(offset)).unwrap();
    assert_eq!(vm.op_mstore(frame), NEXT);
}

#[test]
fn mcopy_of_overlapping_ranges() {
    let mut vm = machine(Fork::Cancun);
    let mut frame = frame();
    let mut bytes = [0u8; 32];
    for (i, byte) in bytes.iter_mut().enumerate() {
        *byte = i as u8 + 1;
    }
    store_word(&mut vm, &mut frame, 0, bytes);
    let before = frame.gas_used;
    // size below, then source, destination on top
    frame.stack.push(n(8)).unwrap();
    frame.stack.push(n(0)).unwrap();
    frame.stack.push(n(2)).unwrap();
    assert_eq!(vm.op_mcopy(&mut frame), NEXT);
    assert_eq!(frame.memory.load_range(0, 12), vec![1, 2, 1, 2, 3, 4, 5, 6, 7, 8, 11, 12]);
    assert_eq!(frame.gas_used - before, 3 + 3);
    assert_eq!(frame.memory.len(), 32);
}

#[test]
fn mcopy_grows_the_memory_and_charges_for_it() {
    let mut vm = machine(Fork::Cancun);
    let mut frame = frame();
    store_word(&mut vm, &mut frame, 0, [0xab; 32]);
    let before = frame.gas_used;
    frame.stack.push(n(33)).unwrap();
    frame.stack.push(n(0)).unwrap();
    frame.stack.push(n(64)).unwrap();
    assert_eq!(vm.op_mcopy(&mut frame), NEXT);
    assert_eq!(frame.memory.len(), 128);
    // two words copied, memory from one word to four
    assert_eq!(frame.gas_used - before, 3 + 3 * 2 + (12 - 3));
    let mut expected = vec![0xab; 32];
    expected.push(0);
    assert_eq!(frame.memory.load_range(64, 33), expected);
}

#[test]
fn mcopy_of_nothing_copies_nothing() {
    let mut vm = machine(Fork::Cancun);
    let mut frame = frame();
    frame.stack.push(n(0)).unwrap();
    frame.stack.push(n(0)).unwrap();
    frame.stack.push(n(0)).unwrap();
    assert_eq!(vm.op_mcopy(&mut frame), NEXT);
    assert_eq!(frame.memory.len(), 0);
    assert_eq!(frame.gas_used, 3);
}

#[test]
fn mcopy_refuses_sizes_that_overflow() {
    let mut vm = machine(Fork::Cancun);
    let mut frame = frame();
    frame.stack.push(U256::max_value()).unwrap();
    frame.stack.push(n(0)).unwrap();
    frame.stack.push(n(0)).unwrap();
    assert_eq!(vm.op_mcopy(&mut frame), Err(VMError::OverflowInArithmeticOp));
    frame.stack.push(n(64)).unwrap();
    frame.stack.push(U256::max_value()).unwrap();
    frame.stack.push(n(0)).unwrap();
    assert_eq!(vm.op_mcopy(&mut frame), Err(VMError::OverflowInArithmeticOp));
    assert_eq!(frame.memory.len(), 0);
}

#[test]
fn sload_of_an_unknown_slot_is_zero() {
    let mut vm = machine(Fork::Cancun);
    let mut frame = frame();
    frame.stack.push(n(7)).unwrap();
    assert_eq!(vm.op_sload(&mut frame), NEXT);
    assert_eq!(frame.stack.pop(), Ok(U256::zero()));
    assert_eq!(vm.op_sload(&mut frame), Err(VMError::StackUnderflow));
}

#[test]
fn sstore_then_sload() {
    let mut vm = machine(Fork::Cancun);
    let mut frame = frame();
    frame.stack.push(n(99)).unwrap();
    frame.stack.push(n(7)).unwrap();
    assert_eq!(vm.op_sstore(&mut frame), NEXT);
    assert!(frame.stack.is_empty());
    frame.stack.push(n(7)).unwrap();
    assert_eq!(vm.op_sload(&mut frame), NEXT);
    assert_eq!(frame.stack.pop(), Ok(n(99)));
    // the storage is that of the account whose code runs
    assert_eq!(
        vm.cache.read_account_storage(&addr(3), &n(7)),
        Some(StorageSlot { original_value: n(99), current_value: n(99), is_cold: false })
    );
    assert_eq!(vm.cache.read_account_storage(&addr(2), &n(7)), None);
}

#[test]
fn sstore_keeps_the_original_value() {
    let mut vm = machine(Fork::Cancun);
    let mut frame = frame();
    vm.cache.write_account_storage(
        &vm.db,
        &addr(3),
        n(7),
        StorageSlot { original_value: n(1), current_value: n(1), is_cold: true },
    );
    frame.stack.push(n(2)).unwrap();
    frame.stack.push(n(7)).unwrap();
    assert_eq!(vm.op_sstore(&mut frame), NEXT);
    assert_eq!(
        vm.cache.read_account_storage(&addr(3), &n(7)),
        Some(StorageSlot { original_value: n(1), current_value: n(2), is_cold: false })
    );
    frame.stack.push(n(3)).unwrap();
    frame.stack.push(n(7)).unwrap();
    assert_eq!(vm.op_sstore(&mut frame), NEXT);
    assert_eq!(
        vm.cache.read_account_storage(&addr(3), &n(7)),
        Some(StorageSlot { original_value: n(1), current_value: n(3), is_cold: false })
    );
}

#[test]
fn second_sstore_to_a_new_slot_keeps_the_first_original() {
    let mut vm = machine(Fork::Cancun);
    let mut frame = frame();
    frame.stack.push(n(10)).unwrap();
    frame.stack.push(n(7)).unwrap();
    assert_eq!(vm.op_sstore(&mut frame), NEXT);
    frame.stack.push(n(20)).unwrap();
    frame.stack.push(n(7)).unwrap();
    assert_eq!(vm.op_sstore(&mut frame), NEXT);
    assert_eq!(
        vm.cache.read_account_storage(&addr(3), &n(7)),
        Some(StorageSlot { original_value: n(10), current_value: n(20), is_cold: false })
    );
}

#[test]
fn storage_opcodes_follow_the_delegate() {
    let mut vm = machine(Fork::Cancun);
    let mut frame = frame();
    frame.delegate = Some(addr(8));
    frame.stack.push(n(5)).unwrap();
    frame.stack.push(n(1)).unwrap();
    assert_eq!(vm.op_sstore(&mut frame), NEXT);
    assert!(vm.cache.read_account_storage(&addr(8), &n(1)).is_some());
    assert!(vm.cache.read_account_storage(&addr(3), &n(1)).is_none());
    frame.stack.push(n(1)).unwrap();
    assert_eq!(vm.op_sload(&mut frame), NEXT);
    assert_eq!(frame.stack.pop(), Ok(n(5)));
    frame.delegate = None;
    frame.stack.push(n(1)).unwrap();
    assert_eq!(vm.op_sload(&mut frame), NEXT);
    assert_eq!(frame.stack.pop(), Ok(U256::zero()));
}

#[test]
fn sstore_is_refused_in_a_static_call() {
    let mut vm = machine(Fork::Cancun);
    let mut frame = frame_with(vec![], 1000, true);
    frame.stack.push(n(5)).unwrap();
    frame.stack.push(n(1)).unwrap();
    assert_eq!(vm.op_sstore(&mut frame), Err(VMError::OpcodeNotAllowedInStaticContext));
    assert_eq!(frame.stack.len(), 2);
    assert!(vm.cache.read_account_storage(&addr(3), &n(1)).is_none());
    let mut frame = frame_with(vec![], 1000, false);
    frame.stack.push(n(5)).unwrap();
    assert_eq!(vm.op_sstore(&mut frame), Err(VMError::StackUnderflow));
    assert!(!vm.cache.is_account_cached(&addr(3)));
}

#[test]
fn sstore_loads_the_owner_from_the_database() {
    let mut vm = machine(Fork::Cancun);
    let mut frame = frame();
    // the database knows the delegate, the cache does not
    frame.delegate = Some(addr(2));
    assert!(!vm.cache.is_account_cached(&addr(2)));
    frame.stack.push(n(5)).unwrap();
    frame.stack.push(n(1)).unwrap();
    assert_eq!(vm.op_sstore(&mut frame), NEXT);
    let account = vm.cache.get_account(&addr(2)).unwrap();
    assert_eq!(account.info.balance, n(4242));
    assert_eq!(account.info.nonce, 1);
    assert_eq!(
        vm.cache.read_account_storage(&addr(2), &n(1)),
        Some(StorageSlot { original_value: n(5), current_value: n(5), is_cold: false })
    );
    // SELFBALANCE of that account still sees what the database holds
    assert_eq!(vm.op_selfbalance(&mut frame), NEXT);
    assert_eq!(frame.stack.pop(), Ok(n(4242)));
    // the account whose code runs was not touched
    assert!(!vm.cache.is_account_cached(&addr(3)));
    assert_eq!(frame.memory.len(), 0);
    assert_eq!(frame.pc, 0);
    assert_eq!(frame.gas_used, 5);
}

#[test]
fn sstore_changes_one_slot_only() {
    let mut vm = machine(Fork::Cancun);
    let mut frame = frame();
    for (key, value) in [(1, 10), (2, 20)] {
        frame.stack.push(n(value)).unwrap();
        frame.stack.push(n(key)).unwrap();
        assert_eq!(vm.op_sstore(&mut frame), NEXT);
    }
    frame.stack.push(n(11)).unwrap();
    frame.stack.push(n(1)).unwrap();
    assert_eq!(vm.op_sstore(&mut frame), NEXT);
    assert_eq!(
        vm.cache.read_account_storage(&addr(3), &n(2)),
        Some(StorageSlot { original_value: n(20), current_value: n(20), is_cold: false })
    );
    assert_eq!(
        vm.cache.read_account_storage(&addr(3), &n(1)),
        Some(StorageSlot { original_value: n(10), current_value: n(11), is_cold: false })
    );
}

#[test]
fn failed_charge_leaves_the_operands() {
    let mut vm = machine(Fork::Cancun);
    // MLOAD of a far word: the price is beyond the limit
    let mut frame = frame_with(vec![], 1000, false);
    frame.stack.push(n(1 << 20)).unwrap();
    assert_eq!(vm.op_mload(&mut frame), OUT_OF_GAS);
    assert_eq!(frame.stack.len(), 1);
    assert_eq!(frame.stack.peek(0), Ok(n(1 << 20)));
    assert_eq!(frame.gas_used, 0);
    assert_eq!(frame.memory.len(), 0);
    // MSTORE and MSTORE8
    frame.stack.push(n(7)).unwrap();
    frame.stack.push(n(1 << 20)).unwrap();
    assert_eq!(vm.op_mstore(&mut frame), OUT_OF_GAS);
    assert_eq!(vm.op_mstore8(&mut frame), OUT_OF_GAS);
    assert_eq!(frame.stack.len(), 3);
    assert_eq!(frame.gas_used, 0);
    // MCOPY
    let mut frame = frame_with(vec![], 1000, false);
    frame.stack.push(n(1)).unwrap();
    frame.stack.push(n(0)).unwrap();
    frame.stack.push(n(1 << 20)).unwrap();
    assert_eq!(vm.op_mcopy(&mut frame), OUT_OF_GAS);
    assert_eq!(frame.stack.len(), 3);
    assert_eq!(frame.stack.peek(0), Ok(n(1 << 20)));
    assert_eq!(frame.stack.peek(2), Ok(n(1)));
    assert_eq!(frame.gas_used, 0);
    assert_eq!(frame.memory.len(), 0);
    // an offset that cannot be addressed
    frame.stack.push(U256::max_value()).unwrap();
    assert_eq!(
        vm.op_mload(&mut frame),
        Err(VMError::OutOfGas(OutOfGasError::MemoryExpansionCostOverflow))
    );
    assert_eq!(frame.stack.len(), 4);
    // MCOPY with too few operands
    let mut frame = frame_with(vec![], 1000, false);
    frame.stack.push(n(0)).unwrap();
    frame.stack.push(n(0)).unwrap();
    assert_eq!(vm.op_mcopy(&mut frame), Err(VMError::StackUnderflow));
    assert_eq!(frame.stack.len(), 2);
    assert_eq!(frame.gas_used, 0);
}

#[test]
fn frames_and_machines_know_whether_they_are_well_formed() {
    let vm = machine(Fork::Cancun);
    assert!(vm.is_well_formed());
    let mut frame = frame();
    assert!(frame.is_well_formed());
    frame.gas_used = frame.gas_limit + 1;
    assert!(!frame.is_well_formed());
    frame.gas_used = frame.gas_limit;
    assert!(frame.is_well_formed());
    // a jump destination that the code does not have
    frame.valid_jump_destinations.insert(1);
    assert!(!frame.is_well_formed());
    frame.valid_jump_destinations.remove(&1);
    assert!(frame.is_well_formed());
    // one that is missing
    frame.valid_jump_destinations.remove(&2);
    assert!(!frame.is_well_formed());
    // one beyond the code in place of one within
    frame.valid_jump_destinations.insert(100);
    assert!(!frame.is_well_formed());
    assert!(frame.stack.is_well_formed());
    assert!(frame.memory.is_well_formed());
    assert!(frame.transient_storage.is_well_formed());
}

#[test]
fn sstore_keeps_the_accounts_info() {
    let mut vm = machine(Fork::Cancun);
    vm.cache.insert_account(
        addr(3),
        Account::new(AccountInfo { balance: n(5), nonce: 6, bytecode: Bytes::from(vec![7]) }),
    );
    let mut frame = frame();
    frame.stack.push(n(5)).unwrap();
    frame.stack.push(n(1)).unwrap();
    assert_eq!(vm.op_sstore(&mut frame), NEXT);
    let account = vm.cache.get_account(&addr(3)).unwrap();
    assert_eq!(account.info.balance, n(5));
    assert_eq!(account.info.nonce, 6);
    assert_eq!(account.info.bytecode, Bytes::from(vec![7]));
}

#[test]
fn gas_reports_what_is_left_after_its_own_cost() {
    let mut vm = machine(Fork::Cancun);
    let mut frame = frame();
    assert_eq!(vm.op_gas(&mut frame), NEXT);
    assert_eq!(frame.stack.pop(), Ok(n(998)));
    assert_eq!(vm.op_gas(&mut frame), NEXT);
    assert_eq!(frame.stack.pop(), Ok(n(996)));
    let mut poor = frame_with(vec![], 2, false);
    assert_eq!(vm.op_gas(&mut poor), NEXT);
    assert_eq!(poor.stack.pop(), Ok(U256::zero()));
    assert_eq!(vm.op_gas(&mut poor), OUT_OF_GAS);
}

#[test]
fn pc_reports_the_place_of_the_opcode() {
    let mut vm = machine(Fork::Cancun);
    let mut frame = frame();
    assert_eq!(vm.op_pc(&mut frame), NEXT);
    assert_eq!(frame.stack.pop(), Ok(U256::zero()));
    frame.pc = 17;
    assert_eq!(vm.op_pc(&mut frame), NEXT);
    assert_eq!(frame.stack.pop(), Ok(n(17)));
    assert_eq!(frame.pc, 17);
    assert_eq!(frame.gas_used, 4);
}

#[test]
fn jumpdest_costs_one() {
    let mut vm = machine(Fork::Cancun);
    let mut frame = frame_with(vec![0x5b], 1, false);
    assert_eq!(vm.op_jumpdest(&mut frame), NEXT);
    assert_eq!(frame.gas_used, 1);
    assert_eq!(vm.op_jumpdest(&mut frame), OUT_OF_GAS);
    assert_eq!(frame.gas_used, 1);
}

#[test]
fn jump_moves_to_a_jump_destination() {
    let mut vm = machine(Fork::Cancun);
    let mut frame = frame();
    frame.stack.push(n(2)).unwrap();
    assert_eq!(vm.op_jump(&mut frame), Ok(OpcodeResult::Continue { pc_increment: 0 }));
    assert_eq!(frame.pc, 2);
    assert_eq!(frame.gas_used, 8);
    assert!(frame.stack.is_empty());
}

#[test]
fn jump_into_push_data_burns_the_gas() {
    let mut vm = machine(Fork::Cancun);
    let mut frame = frame();
    frame.stack.push(n(1)).unwrap();
    assert_eq!(vm.op_jump(&mut frame), Err(VMError::InvalidJump));
    assert_eq!(frame.gas_used, frame.gas_limit);
    assert_eq!(frame.pc, 0);
}

#[test]
fn jump_elsewhere_is_invalid() {
    let mut vm = machine(Fork::Cancun);
    for target in [n(0), n(3), n(1 << 40), U256::max_value()] {
        let mut frame = frame();
        frame.stack.push(target).unwrap();
        assert_eq!(vm.op_jump(&mut frame), Err(VMError::InvalidJump));
        assert_eq!(frame.gas_used, 1000);
    }
    let mut frame = frame();
    assert_eq!(vm.op_jump(&mut frame), Err(VMError::StackUnderflow));
    assert_eq!(frame.gas_used, 8);
    let mut poor = frame_with(vec![0x5b], 7, false);
    poor.stack.push(n(0)).unwrap();
    assert_eq!(vm.op_jump(&mut poor), OUT_OF_GAS);
    assert_eq!(poor.gas_used, 0);
}

#[test]
fn frame_jump_checks_the_destination() {
    let mut frame = frame();
    assert!(!frame.jump(n(1)));
    assert_eq!(frame.pc, 0);
    assert!(frame.jump(n(2)));
    assert_eq!(frame.pc, 2);
    assert!(!frame.jump(U256 { l0: 2, l1: 1, l2: 0, l3: 0 }));
    assert_eq!(frame.pc, 2);
}

#[test]
fn jumpi_jumps_when_the_condition_holds() {
    let mut vm = machine(Fork::Cancun);
    let mut frame = frame();
    // condition below, target on top
    frame.stack.push(n(1)).unwrap();
    frame.stack.push(n(2)).unwrap();
    assert_eq!(vm.op_jumpi(&mut frame), Ok(OpcodeResult::Continue { pc_increment: 0 }));
    assert_eq!(frame.pc, 2);
    assert_eq!(frame.gas_used, 10);
    frame.pc = 0;
    frame.stack.push(U256::max_value()).unwrap();
    frame.stack.push(n(2)).unwrap();
    assert_eq!(vm.op_jumpi(&mut frame), Ok(OpcodeResult::Continue { pc_increment: 0 }));
    assert_eq!(frame.pc, 2);
}

#[test]
fn jumpi_goes_on_when_the_condition_is_zero() {
    let mut vm = machine(Fork::Cancun);
    let mut frame = frame();
    frame.stack.push(n(0)).unwrap();
    frame.stack.push(n(1)).unwrap();
    assert_eq!(vm.op_jumpi(&mut frame), NEXT);
    assert_eq!(frame.pc, 0);
    assert_eq!(frame.gas_used, 10);
    assert!(frame.stack.is_empty());
}

#[test]
fn jumpi_to_an_invalid_target_burns_the_gas() {
    let mut vm = machine(Fork::Cancun);
    let mut frame = frame();
    frame.stack.push(n(1)).unwrap();
    frame.stack.push(n(1)).unwrap();
    assert_eq!(vm.op_jumpi(&mut frame), Err(VMError::InvalidJump));
    assert_eq!(frame.gas_used, frame.gas_limit);
    let mut frame = frame_with(vec![0x5b], 1000, false);
    frame.stack.push(n(0)).unwrap();
    assert_eq!(vm.op_jumpi(&mut frame), Err(VMError::StackUnderflow));
}
