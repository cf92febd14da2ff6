use bytes::Bytes;
use levm::account::{Account, AccountInfo, StorageSlot};
use levm::call_frame::CallFrame;
use levm::db::{CacheDB, Database};
use levm::environment::{EVMConfig, Fork, ForkBlobSchedule};
use levm::errors::{InternalError, OutOfGasError, VMError};
use levm::primitives::{Address, H256, U256};
use levm::utils::{
    decrease_account_balance, decrement_account_nonce, eip7702_get_code, get_account,
    get_account_mut_vm, get_account_no_push_cache, get_base_fee_per_blob_gas, get_blob_gas_price,
    get_intrinsic_gas, get_max_blob_gas_price, increase_account_balance, increment_account_nonce,
    update_account_bytecode,
};
use levm::vm::{AuthorizationTuple, Substate};

struct TestDb {
    accounts: Vec<(Address, AccountInfo)>,
}

impl Database for TestDb {
    fn get_account_info(&self, address: Address) -> AccountInfo {
        for (known, info) in &self.accounts {
            if *known == address {
                return info.clone();
            }
        }
        AccountInfo::empty()
    }

    fn get_block_hash(&self, _block_number: u64) -> Option<H256> {
        None
    }
}

fn addr(byte: u8) -> Address {
    Address([byte; 20])
}

fn info(balance: u64, nonce: u64, code: Vec<u8>) -> AccountInfo {
    AccountInfo { balance: U256::from_u64(balance), nonce, bytecode: Bytes::from(code) }
}

fn db() -> TestDb {
    TestDb {
        accounts: vec![
            (addr(1), info(100, 5, vec![0x60, 0x01])),
            (addr(2), info(0, u64::MAX, vec![])),
            (
                addr(3),
                AccountInfo { balance: U256::max_value(), nonce: 0, bytecode: Bytes::new() },
            ),
        ],
    }
}

#[test]
fn account_comes_from_the_database_once() {
    let mut cache = CacheDB::new();
    let mut database = db();
    assert!(!cache.is_account_cached(&addr(1)));
    let account = get_account(&mut cache, &database, addr(1));
    assert_eq!(account.info.balance, U256::from_u64(100));
    assert_eq!(account.info.nonce, 5);
    assert_eq!(account.info.bytecode, Bytes::from(vec![0x60, 0x01]));
    assert!(cache.is_account_cached(&addr(1)));
    // the cache is authoritative from now on
    database.accounts.clear();
    let again = get_account(&mut cache, &database, addr(1));
    assert_eq!(again.info.balance, U256::from_u64(100));
    assert_eq!(again.info.nonce, 5);
}

#[test]
fn account_without_caching_leaves_the_cache() {
    let cache = CacheDB::new();
    let account = get_account_no_push_cache(&cache, &db(), addr(1));
    assert_eq!(account.info.nonce, 5);
    assert!(!cache.is_account_cached(&addr(1)));
    let unknown = get_account_no_push_cache(&cache, &db(), addr(9));
    assert_eq!(unknown.info.balance, U256::zero());
    assert_eq!(unknown.info.nonce, 0);
    assert!(unknown.info.bytecode.is_empty());
}

#[test]
fn account_handle_writes_to_the_cache() {
    let mut cache = CacheDB::new();
    let database = db();
    {
        let account = get_account_mut_vm(&mut cache, &database, addr(1)).unwrap();
        assert_eq!(account.info.nonce, 5);
        account.info.nonce = 77;
    }
    assert_eq!(cache.get_account(&addr(1)).unwrap().info.nonce, 77);
    assert_eq!(get_account(&mut cache, &database, addr(1)).info.nonce, 77);
}

#[test]
fn cache_holds_what_is_inserted() {
    let mut cache = CacheDB::new();
    assert!(cache.get_account(&addr(1)).is_none());
    assert!(cache.get_account_mut(&addr(1)).is_none());
    cache.insert_account(addr(1), Account::new(info(1, 2, vec![3])));
    cache.insert_account(addr(2), Account::empty());
    assert_eq!(cache.get_account(&addr(1)).unwrap().info.nonce, 2);
    cache.insert_account(addr(1), Account::new(info(9, 8, vec![])));
    assert_eq!(cache.get_account(&addr(1)).unwrap().info.nonce, 8);
    assert_eq!(cache.get_account(&addr(2)).unwrap().info.nonce, 0);
    cache.get_account_mut(&addr(2)).unwrap().info.nonce = 4;
    assert_eq!(cache.get_account(&addr(2)).unwrap().info.nonce, 4);
}

#[test]
fn storage_slots_are_read_and_written() {
    let mut cache = CacheDB::new();
    let database = db();
    let key = U256::from_u64(11);
    assert_eq!(cache.read_account_storage(&addr(1), &key), None);
    let slot = StorageSlot {
        original_value: U256::from_u64(1),
        current_value: U256::from_u64(2),
        is_cold: true,
    };
    cache.write_account_storage(&database, &addr(1), key, slot);
    assert_eq!(cache.read_account_storage(&addr(1), &key), Some(slot));
    assert_eq!(cache.read_account_storage(&addr(1), &U256::from_u64(12)), None);
    assert_eq!(cache.read_account_storage(&addr(2), &key), None);
    assert!(!cache.is_account_cached(&addr(2)));
    // a write to an account in the cache keeps its info
    cache.insert_account(addr(3), Account::new(info(5, 6, vec![7])));
    cache.write_account_storage(&database, &addr(3), key, StorageSlot::empty());
    let account = cache.get_account(&addr(3)).unwrap();
    assert_eq!(account.info.balance, U256::from_u64(5));
    assert_eq!(account.info.nonce, 6);
    assert_eq!(account.info.bytecode, Bytes::from(vec![7]));
    assert_eq!(cache.read_account_storage(&addr(3), &key), Some(StorageSlot::empty()));
    // a second slot leaves the first
    cache.write_account_storage(&database, &addr(1), U256::from_u64(12), StorageSlot::empty());
    assert_eq!(cache.read_account_storage(&addr(1), &key), Some(slot));
}

#[test]
fn storage_write_takes_the_account_from_the_database() {
    let mut cache = CacheDB::new();
    let mut database = db();
    let key = U256::from_u64(11);
    cache.write_account_storage(&database, &addr(1), key, StorageSlot::empty());
    // what the database holds of the account is in the cache with the slot
    let account = cache.get_account(&addr(1)).unwrap();
    assert_eq!(account.info.balance, U256::from_u64(100));
    assert_eq!(account.info.nonce, 5);
    assert_eq!(account.info.bytecode, Bytes::from(vec![0x60, 0x01]));
    database.accounts.clear();
    let again = get_account(&mut cache, &database, addr(1));
    assert_eq!(again.info.balance, U256::from_u64(100));
    assert_eq!(again.info.nonce, 5);
    // an account that the database does not know either starts out empty
    cache.write_account_storage(&database, &addr(9), key, StorageSlot::empty());
    let unknown = cache.get_account(&addr(9)).unwrap();
    assert_eq!(unknown.info.balance, U256::zero());
    assert_eq!(unknown.info.nonce, 0);
    assert!(unknown.info.bytecode.is_empty());
}

#[test]
fn well_formed_values_are_recognised() {
    let mut cache = CacheDB::new();
    assert!(cache.is_well_formed());
    cache.write_account_storage(&db(), &addr(1), U256::from_u64(1), StorageSlot::empty());
    cache.write_account_storage(&db(), &addr(1), U256::from_u64(2), StorageSlot::empty());
    cache.insert_account(addr(2), Account::empty());
    assert!(cache.is_well_formed());
    let account = cache.get_account(&addr(1)).unwrap();
    assert!(account.storage.is_well_formed());
    assert_eq!(account.storage.len(), 2);
    let (key, slot) = account.storage.entry(1);
    assert_eq!(*key, U256::from_u64(2));
    assert_eq!(*slot, StorageSlot::empty());
    assert!(account.storage.contains_key(&U256::from_u64(1)));
    assert!(!account.storage.contains_key(&U256::from_u64(3)));
}

#[test]
fn balance_goes_up_and_down() {
    let mut cache = CacheDB::new();
    let database = db();
    assert_eq!(
        increase_account_balance(&mut cache, &database, addr(1), U256::from_u64(50)),
        Ok(())
    );
    assert_eq!(cache.get_account(&addr(1)).unwrap().info.balance, U256::from_u64(150));
    assert_eq!(
        decrease_account_balance(&mut cache, &database, addr(1), U256::from_u64(150)),
        Ok(())
    );
    assert_eq!(cache.get_account(&addr(1)).unwrap().info.balance, U256::zero());
    assert_eq!(cache.get_account(&addr(1)).unwrap().info.nonce, 5);
}

#[test]
fn balance_does_not_wrap() {
    let mut cache = CacheDB::new();
    let database = db();
    assert_eq!(
        increase_account_balance(&mut cache, &database, addr(3), U256::one()),
        Err(VMError::BalanceOverflow)
    );
    assert_eq!(cache.get_account(&addr(3)).unwrap().info.balance, U256::max_value());
    assert_eq!(
        decrease_account_balance(&mut cache, &database, addr(1), U256::from_u64(101)),
        Err(VMError::BalanceUnderflow)
    );
    assert_eq!(cache.get_account(&addr(1)).unwrap().info.balance, U256::from_u64(100));
    assert_eq!(
        decrease_account_balance(&mut cache, &database, addr(9), U256::one()),
        Err(VMError::BalanceUnderflow)
    );
}

#[test]
fn nonce_goes_up_and_down() {
    let mut cache = CacheDB::new();
    let database = db();
    assert_eq!(increment_account_nonce(&mut cache, &database, addr(1)), Ok(6));
    assert_eq!(increment_account_nonce(&mut cache, &database, addr(1)), Ok(7));
    assert_eq!(decrement_account_nonce(&mut cache, &database, addr(1)), Ok(()));
    assert_eq!(cache.get_account(&addr(1)).unwrap().info.nonce, 6);
    assert_eq!(
        increment_account_nonce(&mut cache, &database, addr(2)),
        Err(VMError::NonceOverflow)
    );
    assert_eq!(cache.get_account(&addr(2)).unwrap().info.nonce, u64::MAX);
    assert_eq!(
        decrement_account_nonce(&mut cache, &database, addr(9)),
        Err(VMError::NonceUnderflow)
    );
}

#[test]
fn account_operations_work_on_accounts() {
    let mut account = Account::new(info(10, 0, vec![]));
    assert_eq!(account.increase_balance(U256::from_u64(5)), Ok(()));
    assert_eq!(account.decrease_balance(U256::from_u64(15)), Ok(()));
    assert_eq!(account.decrease_balance(U256::one()), Err(VMError::BalanceUnderflow));
    assert_eq!(account.info.balance, U256::zero());
    assert_eq!(account.decrement_nonce(), Err(VMError::NonceUnderflow));
    assert_eq!(account.increment_nonce(), Ok(1));
    assert_eq!(account.decrement_nonce(), Ok(()));
    assert_eq!(account.info.nonce, 0);
    let copy = account.clone();
    assert_eq!(copy.info.nonce, 0);
}

#[test]
fn bytecode_is_replaced() {
    let mut cache = CacheDB::new();
    let database = db();
    assert_eq!(
        update_account_bytecode(&mut cache, &database, addr(1), Bytes::from(vec![0xfe])),
        Ok(())
    );
    let account = cache.get_account(&addr(1)).unwrap();
    assert_eq!(account.info.bytecode, Bytes::from(vec![0xfe]));
    assert_eq!(account.info.balance, U256::from_u64(100));
}

fn frame_with_calldata(calldata: Vec<u8>) -> CallFrame {
    CallFrame::new(
        addr(1),
        addr(2),
        addr(2),
        None,
        Bytes::new(),
        U256::zero(),
        Bytes::from(calldata),
        false,
        1_000_000,
    )
}

#[test]
fn intrinsic_gas_of_a_plain_transfer_is_the_base_cost() {
    let frame = frame_with_calldata(vec![]);
    assert_eq!(get_intrinsic_gas(false, Fork::Cancun, &vec![], &None, &frame), Ok(21000));
    assert_eq!(get_intrinsic_gas(false, Fork::Frontier, &vec![], &None, &frame), Ok(21000));
    assert_eq!(
        get_intrinsic_gas(false, Fork::Prague, &vec![], &Some(vec![]), &frame),
        Ok(21000)
    );
}

#[test]
fn intrinsic_gas_adds_calldata_creation_lists() {
    let frame = frame_with_calldata(vec![0, 1, 0, 2]);
    assert_eq!(get_intrinsic_gas(false, Fork::Cancun, &vec![], &None, &frame), Ok(21040));
    assert_eq!(get_intrinsic_gas(false, Fork::Homestead, &vec![], &None, &frame), Ok(21144));
    assert_eq!(get_intrinsic_gas(true, Fork::Cancun, &vec![], &None, &frame), Ok(53042));
    let init = frame_with_calldata(vec![1; 33]);
    assert_eq!(get_intrinsic_gas(true, Fork::Cancun, &vec![], &None, &init), Ok(53532));
    let empty = frame_with_calldata(vec![]);
    assert_eq!(get_intrinsic_gas(true, Fork::Cancun, &vec![], &None, &empty), Ok(53000));
    let access_list = vec![
        (addr(1), vec![H256::zero(), H256([1; 32])]),
        (addr(2), vec![H256::zero()]),
    ];
    assert_eq!(get_intrinsic_gas(false, Fork::Cancun, &access_list, &None, &empty), Ok(31500));
    let authorization = AuthorizationTuple {
        chain_id: U256::one(),
        address: addr(1),
        nonce: 0,
        v: U256::zero(),
        r_signature: U256::one(),
        s_signature: U256::one(),
    };
    let authorizations = Some(vec![authorization, authorization]);
    assert_eq!(
        get_intrinsic_gas(false, Fork::Prague, &vec![], &authorizations, &empty),
        Ok(71000)
    );
    assert_eq!(
        get_intrinsic_gas(true, Fork::Prague, &access_list, &authorizations, &frame),
        Ok(21000 + 40 + 32000 + 2 + 10500 + 50000)
    );
    let error: Result<u64, VMError> = Err(VMError::OutOfGas(OutOfGasError::ConsumedGasOverflow));
    assert_ne!(get_intrinsic_gas(false, Fork::Cancun, &vec![], &None, &empty), error);
}

fn config(fraction: u64) -> EVMConfig {
    EVMConfig {
        fork: Fork::Cancun,
        blob_schedule: ForkBlobSchedule { target: 3, max: 6, base_fee_update_fraction: fraction },
    }
}

#[test]
fn blob_base_fee_follows_the_excess() {
    assert_eq!(get_base_fee_per_blob_gas(None, &config(3338477)), Ok(U256::one()));
    assert_eq!(
        get_base_fee_per_blob_gas(Some(U256::zero()), &config(3338477)),
        Ok(U256::one())
    );
    assert_eq!(
        get_base_fee_per_blob_gas(Some(U256::from_u64(33384770)), &config(3338477)),
        Ok(U256::from_u64(22026))
    );
    assert_eq!(
        get_base_fee_per_blob_gas(Some(U256::from_u64(7864320)), &config(3338477)),
        Ok(U256::from_u64(10))
    );
    assert_eq!(
        get_base_fee_per_blob_gas(Some(U256::zero()), &config(0)),
        Err(VMError::Internal(InternalError::ArithmeticOperationDividedByZero))
    );
}

#[test]
fn blob_gas_prices() {
    let hashes = vec![H256::zero(), H256::zero()];
    assert_eq!(
        get_max_blob_gas_price(hashes.clone(), Some(U256::from_u64(10))),
        Ok(U256::from_u64(2621440))
    );
    assert_eq!(get_max_blob_gas_price(hashes.clone(), None), Ok(U256::zero()));
    assert_eq!(get_max_blob_gas_price(vec![], Some(U256::from_u64(10))), Ok(U256::zero()));
    assert_eq!(
        get_max_blob_gas_price(hashes.clone(), Some(U256::max_value())),
        Err(VMError::Internal(InternalError::UndefinedState(1)))
    );
    assert_eq!(
        get_blob_gas_price(vec![H256::zero(); 3], Some(U256::zero()), &config(3338477)),
        Ok(U256::from_u64(393216))
    );
    assert_eq!(
        get_blob_gas_price(hashes.clone(), Some(U256::from_u64(7864320)), &config(3338477)),
        Ok(U256::from_u64(2621440))
    );
    assert_eq!(
        get_blob_gas_price(hashes, None, &config(0)),
        Err(VMError::Internal(InternalError::ArithmeticOperationDividedByZero))
    );
}

fn designator(target: &Address) -> Vec<u8> {
    let mut code = vec![0xef, 0x01, 0x00];
    code.extend_from_slice(&target.0);
    code
}

fn delegating_db() -> TestDb {
    TestDb {
        accounts: vec![
            (addr(1), info(0, 0, designator(&addr(2)))),
            (addr(2), info(0, 0, vec![0x60, 0x00, 0x00])),
            (addr(3), info(0, 0, designator(&addr(4)))),
            (addr(4), info(0, 0, designator(&addr(2)))),
            (addr(5), info(0, 0, vec![0x00])),
        ],
    }
}

#[test]
fn code_without_delegation_is_the_accounts_own() {
    let mut cache = CacheDB::new();
    let mut substate = Substate::new();
    let database = delegating_db();
    assert_eq!(
        eip7702_get_code(&mut cache, &database, &mut substate, addr(5)),
        Ok((false, 0, addr(5), Bytes::from(vec![0x00])))
    );
    assert!(!substate.touched_accounts.contains(&addr(5)));
    assert_eq!(
        eip7702_get_code(&mut cache, &database, &mut substate, addr(9)),
        Ok((false, 0, addr(9), Bytes::new()))
    );
    assert!(cache.is_account_cached(&addr(9)));
}

#[test]
fn delegation_resolves_in_one_hop() {
    let mut cache = CacheDB::new();
    let mut substate = Substate::new();
    let database = delegating_db();
    assert_eq!(
        eip7702_get_code(&mut cache, &database, &mut substate, addr(1)),
        Ok((true, 2600, addr(2), Bytes::from(vec![0x60, 0x00, 0x00])))
    );
    assert!(substate.touched_accounts.contains(&addr(2)));
    assert!(!substate.touched_accounts.contains(&addr(1)));
    assert!(cache.is_account_cached(&addr(1)));
    assert!(cache.is_account_cached(&addr(2)));
    // the second time the target is warm
    assert_eq!(
        eip7702_get_code(&mut cache, &database, &mut substate, addr(1)),
        Ok((true, 100, addr(2), Bytes::from(vec![0x60, 0x00, 0x00])))
    );
}

#[test]
fn delegation_to_a_delegation_is_not_followed() {
    let mut cache = CacheDB::new();
    let mut substate = Substate::new();
    let database = delegating_db();
    assert_eq!(
        eip7702_get_code(&mut cache, &database, &mut substate, addr(3)),
        Ok((true, 2600, addr(4), Bytes::from(designator(&addr(2)))))
    );
    assert!(substate.touched_accounts.contains(&addr(4)));
    assert!(!substate.touched_accounts.contains(&addr(2)));
    assert!(!cache.is_account_cached(&addr(2)));
}

#[test]
fn touched_set_records_once() {
    let mut substate = Substate::new();
    assert!(substate.touched_accounts.insert(addr(1)));
    assert!(!substate.touched_accounts.insert(addr(1)));
    assert!(substate.touched_accounts.contains(&addr(1)));
    assert!(!substate.touched_accounts.contains(&addr(2)));
}
