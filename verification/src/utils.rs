//! Helpers shared by the opcode handlers and by the code that sets a
//! transaction up: addresses, jump destinations, accounts, gas and
//! delegation.

use crate::account::{
    balance_decreased, balance_increased, nonce_decremented, nonce_incremented, Account,
    AccountInfo, AccountInfoView, AccountView,
};
use crate::buffer::{bytes_as_slice, bytes_clone, bytes_seq};
use crate::call_frame::CallFrame;
use crate::constants::{
    EIP7702_DELEGATED_CODE_LEN, MAGIC, MIN_BASE_FEE_PER_BLOB_GAS, PER_EMPTY_ACCOUNT_COST,
    SET_CODE_DELEGATION_BYTE_0, SET_CODE_DELEGATION_BYTE_1, SET_CODE_DELEGATION_BYTE_2,
    TX_BASE_COST,
};
use crate::crypto::{
    keccak, keccak_digest, recover_public_key, secp256k1_recovered_key, sha3_keccak256,
    sha3_keccak256_digest,
};
use crate::db::{loaded_account, CacheDB, Database};
use crate::environment::{EVMConfig, Fork};
use crate::errors::{InternalError, OutOfGasError, VMError};
use crate::gas_cost::{
    calldata_cost, fake_exponential, fake_exponential_spec, tx_calldata,
    ACCESS_LIST_ADDRESS_COST, ACCESS_LIST_STORAGE_KEY_COST, BLOB_GAS_PER_BLOB,
    COLD_ADDRESS_ACCESS_COST, CREATE_BASE_COST, WARM_ADDRESS_ACCESS_COST,
};
use crate::opcodes::Opcode;
use crate::primitives::{
    be_to_nat, lemma_be_leading_zeros, lemma_word_of_view, nat_to_be, word, word_modulus, Address,
    H256, U256,
};
use crate::rlp::{
    encode_address, encode_list, encode_uint, extend, rlp_list, rlp_string, rlp_uint,
};
use crate::vm::{AccessList, AuthorizationList, AuthorizationTuple, Substate};
use bytes::Bytes;
use std::collections::HashSet;
use vstd::prelude::*;

verus! {

/// The address read as a word: twelve zero bytes, then the address.
pub fn address_to_word(address: Address) -> (r: U256)
    ensures
        r@ == be_to_nat(address.0@),
{
    let mut bytes = [0u8; 32];
    let mut i: usize = 0;
    while i < 20
        invariant
            i <= 20,
            forall|j: int| 0 <= j < 12 ==> bytes@[j] == 0,
            forall|j: int| 0 <= j < i ==> bytes@[12 + j] == address.0@[j],
        decreases 20 - i,
    {
        bytes[12 + i] = address.0[i];
        i += 1;
    }
    proof {
        let zeros = bytes@.subrange(0, 12);
        assert(bytes@ =~= zeros + address.0@);
        lemma_be_leading_zeros(zeros, address.0@);
    }
    U256::from_big_endian(bytes.as_slice())
}

/// The address that a word's low twenty bytes spell.
pub fn word_to_address(word: U256) -> (r: Address)
    ensures
        r.0@ == nat_to_be(word@, 32).subrange(12, 32),
{
    let bytes = word.to_big_endian();
    Address::from_slice(&bytes.as_slice()[12..32])
}

/// How many bytes the instruction with this first byte takes: a push takes
/// its data with it.
pub open spec fn instruction_len(opcode: u8) -> int {
    if 0x60 <= opcode <= 0x7f {
        opcode - 0x60 + 2
    } else {
        1
    }
}

/// Whether an instruction starts at `pc`, when one starts at `from` and the
/// code is read from there, instruction by instruction.
pub open spec fn instruction_starts_at(code: Seq<u8>, from: int, pc: int) -> bool
    decreases pc - from,
{
    if from < 0 || pc < from || pc >= code.len() {
        false
    } else if pc == from {
        true
    } else if from + instruction_len(code[from]) > pc {
        false
    } else {
        instruction_starts_at(code, from + instruction_len(code[from]), pc)
    }
}

/// Whether a jump may land on `pc`: a JUMPDEST that is an instruction of its
/// own, not a byte of push data.
pub open spec fn valid_jump_destination(code: Seq<u8>, pc: int) -> bool {
    instruction_starts_at(code, 0, pc) && code[pc] == 0x5b
}

/// Whether `pc` lies in the data of a push instruction.
pub open spec fn in_push_data(code: Seq<u8>, pc: int) -> bool {
    exists|push: int|
        #![trigger instruction_starts_at(code, 0, push)]
        instruction_starts_at(code, 0, push) && 0x60 <= code[push] <= 0x7f && push < pc < push
            + instruction_len(code[push])
}

/// Reading on from an instruction's start finds the same instructions as
/// reading from where the reading began.
pub proof fn lemma_scan_resumes(code: Seq<u8>, from: int, at: int, pc: int)
    requires
        instruction_starts_at(code, from, at),
        at <= pc,
    ensures
        instruction_starts_at(code, from, pc) == instruction_starts_at(code, at, pc),
    decreases at - from,
{
    if from < at {
        lemma_scan_resumes(code, from + instruction_len(code[from]), at, pc);
    }
}

/// No jump lands in the data of a push, whatever byte stands there.
pub proof fn lemma_no_jump_into_push_data(code: Seq<u8>, pc: int)
    requires
        in_push_data(code, pc),
    ensures
        !valid_jump_destination(code, pc),
{
    let push = choose|push: int|
        #![trigger instruction_starts_at(code, 0, push)]
        instruction_starts_at(code, 0, push) && 0x60 <= code[push] <= 0x7f && push < pc < push
            + instruction_len(code[push]);
    lemma_scan_resumes(code, 0, push, pc);
}

/// The places in `code` that a jump may land on.
pub fn get_valid_jump_destinations(code: &Bytes) -> (r: Result<HashSet<usize>, VMError>)
    ensures
        r is Ok,
        forall|pc: usize| #[trigger]
            r->Ok_0@.contains(pc) <==> valid_jump_destination(bytes_seq(*code), pc as int),
{
    let bytes = bytes_as_slice(code);
    let len = bytes.len();
    let mut valid_jump_destinations: HashSet<usize> = HashSet::new();
    let mut pc: usize = 0;
    while pc < len
        invariant
            len == bytes@.len(),
            pc <= len,
            pc < len ==> instruction_starts_at(bytes@, 0, pc as int),
            forall|q: usize| #[trigger]
                valid_jump_destinations@.contains(q) <==> q < pc && valid_jump_destination(
                    bytes@,
                    q as int,
                ),
        decreases len - pc,
    {
        let opcode_number = bytes[pc];
        let current_opcode = Opcode::from_u8(opcode_number);
        let mut skip_length: usize = 0;
        if current_opcode == Opcode::JUMPDEST {
            valid_jump_destinations.insert(pc);
        } else {
            let number = current_opcode.to_u8();
            if Opcode::PUSH1.to_u8() <= number && number <= Opcode::PUSH32.to_u8() {
                skip_length = (number - Opcode::PUSH1.to_u8()) as usize + 1;
            }
        }
        assert(skip_length + 1 == instruction_len(opcode_number));
        assert((current_opcode == Opcode::JUMPDEST) == (opcode_number == 0x5b));
        let next: usize = if skip_length + 1 >= len - pc {
            len
        } else {
            pc + skip_length + 1
        };
        proof {
            assert forall|q: usize| pc < q < next implies !instruction_starts_at(
                bytes@,
                0,
                q as int,
            ) by {
                lemma_scan_resumes(bytes@, 0, pc as int, q as int);
            }
            if next < len {
                lemma_scan_resumes(bytes@, 0, pc as int, next as int);
                assert(instruction_starts_at(bytes@, next as int, next as int));
                assert(instruction_starts_at(bytes@, pc as int, next as int));
            }
        }
        pc = next;
    }
    Ok(valid_jump_destinations)
}

/// The address of a contract made by CREATE: the last twenty bytes of the
/// hash of the list of the sender and its nonce.
pub open spec fn create_address(sender: Address, nonce: u64) -> Seq<u8> {
    sha3_keccak256_digest(rlp_list(rlp_string(sender.0@) + rlp_uint(nonce as nat))).subrange(
        12,
        32,
    )
}

/// The address of a contract that `sender_address` makes by CREATE at `sender_nonce`.
pub fn calculate_create_address(sender_address: Address, sender_nonce: u64) -> (r: Result<
    Address,
    VMError,
>)
    ensures
        r is Ok,
        r->Ok_0.0@ == create_address(sender_address, sender_nonce),
{
    let mut payload: Vec<u8> = Vec::new();
    encode_address(&sender_address, &mut payload);
    encode_uint(U256::from_u64(sender_nonce), &mut payload);
    assert(payload@ =~= rlp_string(sender_address.0@) + rlp_uint(sender_nonce as nat));
    let encoded = encode_list(payload.as_slice());
    let hash = sha3_keccak256(encoded.as_slice());
    Ok(Address::from_slice(&hash.as_slice()[12..32]))
}

/// The address of a contract made by CREATE2: the last twenty bytes of the
/// hash of 0xff, the sender, the salt as 32 bytes, and the hash of the code.
pub open spec fn create2_address(sender: Address, initialization_code: Seq<u8>, salt: U256) -> Seq<
    u8,
> {
    keccak_digest(
        seq![0xffu8] + sender.0@ + nat_to_be(salt@, 32) + keccak_digest(initialization_code),
    ).subrange(12, 32)
}

/// The address of a contract that `sender_address` makes by CREATE2.
pub fn calculate_create2_address(
    sender_address: Address,
    initialization_code: &Bytes,
    salt: U256,
) -> (r: Result<Address, VMError>)
    ensures
        r is Ok,
        r->Ok_0.0@ == create2_address(sender_address, bytes_seq(*initialization_code), salt),
{
    let init_code_hash = keccak(bytes_as_slice(initialization_code));
    let salt_bytes = salt.to_big_endian();
    let mut preimage: Vec<u8> = Vec::new();
    preimage.push(0xff);
    extend(&mut preimage, sender_address.0.as_slice());
    extend(&mut preimage, salt_bytes.as_slice());
    extend(&mut preimage, init_code_hash.as_slice());
    assert(preimage@ =~= seq![0xffu8] + sender_address.0@ + nat_to_be(salt@, 32)
        + keccak_digest(bytes_seq(*initialization_code)));
    let hash = keccak(preimage.as_slice());
    Ok(Address::from_slice(&hash.as_slice()[12..32]))
}

/// The account at `address`: from the cache, or else from the database and
/// from then on in the cache.
pub fn get_account<D: Database>(cache: &mut CacheDB, db: &D, address: Address) -> (r: Account)
    requires
        old(cache).wf(),
    ensures
        final(cache).wf(),
        r.wf(),
        loaded_account(*db, old(cache)@, address, r@),
        final(cache)@ == old(cache)@.insert(address, r@),
{
    match cache.get_account(&address) {
        Some(account) => {
            let r = account.clone();
            assert(cache@ =~= old(cache)@.insert(address, r@));
            r
        },
        None => {
            let account_info = db.get_account_info(address);
            let account = Account::new(account_info);
            let r = account.clone();
            cache.insert_account(address, account);
            r
        },
    }
}

/// The account at `address`: from the cache, or else from the database. The
/// cache stays as it is.
pub fn get_account_no_push_cache<D: Database>(cache: &CacheDB, db: &D, address: Address) -> (r:
    Account)
    requires
        cache.wf(),
    ensures
        r.wf(),
        loaded_account(*db, cache@, address, r@),
{
    match cache.get_account(&address) {
        Some(account) => account.clone(),
        None => {
            let account_info = db.get_account_info(address);
            Account::new(account_info)
        },
    }
}

/// A handle on the account at `address` in the cache, which is filled from
/// the database first where it does not hold the account.
pub fn get_account_mut_vm<'vm, D: Database>(
    cache: &'vm mut CacheDB,
    db: &'vm D,
    address: Address,
) -> (r: Result<&'vm mut Account, VMError>)
    requires
        old(cache).wf(),
    ensures
        r is Ok,
        r matches Ok(account) ==> {
            &&& account.wf()
            &&& loaded_account(*db, old(cache)@, address, account@)
            &&& final(cache)@ =~= old(cache)@.insert(address, final(account)@)
            &&& final(account).wf() ==> final(cache).wf()
        },
{
    if !cache.is_account_cached(&address) {
        let account_info = db.get_account_info(address);
        let account = Account::new(account_info);
        cache.insert_account(address, account);
    }
    match cache.get_account_mut(&address) {
        Some(account) => Ok(account),
        None => Err(VMError::Internal(InternalError::AccountNotFound)),
    }
}

/// Adds `increase` to the balance of the account at `address`.
pub fn increase_account_balance<D: Database>(
    cache: &mut CacheDB,
    db: &D,
    address: Address,
    increase: U256,
) -> (r: Result<(), VMError>)
    requires
        old(cache).wf(),
    ensures
        final(cache).wf(),
        exists|account: AccountView|
            loaded_account(*db, old(cache)@, address, account) && match balance_increased(
                account,
                increase,
            ) {
                Ok(after) => r is Ok && final(cache)@ == old(cache)@.insert(address, after),
                Err(e) => r == Err::<(), _>(e) && final(cache)@ == old(cache)@.insert(
                    address,
                    account,
                ),
            },
{
    let mut account = get_account(cache, db, address);
    let ghost loaded = account@;
    let r = account.increase_balance(increase);
    if r.is_ok() {
        cache.insert_account(address, account);
    }
    assert(cache@ =~= old(cache)@.insert(address, account@));
    assert(loaded_account(*db, old(cache)@, address, loaded));
    r
}

/// Takes `decrease` from the balance of the account at `address`.
pub fn decrease_account_balance<D: Database>(
    cache: &mut CacheDB,
    db: &D,
    address: Address,
    decrease: U256,
) -> (r: Result<(), VMError>)
    requires
        old(cache).wf(),
    ensures
        final(cache).wf(),
        exists|account: AccountView|
            loaded_account(*db, old(cache)@, address, account) && match balance_decreased(
                account,
                decrease,
            ) {
                Ok(after) => r is Ok && final(cache)@ == old(cache)@.insert(address, after),
                Err(e) => r == Err::<(), _>(e) && final(cache)@ == old(cache)@.insert(
                    address,
                    account,
                ),
            },
{
    let mut account = get_account(cache, db, address);
    let ghost loaded = account@;
    let r = account.decrease_balance(decrease);
    if r.is_ok() {
        cache.insert_account(address, account);
    }
    assert(cache@ =~= old(cache)@.insert(address, account@));
    assert(loaded_account(*db, old(cache)@, address, loaded));
    r
}

/// Sets the code of the account at `address`.
pub fn update_account_bytecode<D: Database>(
    cache: &mut CacheDB,
    db: &D,
    address: Address,
    new_bytecode: Bytes,
) -> (r: Result<(), VMError>)
    requires
        old(cache).wf(),
    ensures
        final(cache).wf(),
        r is Ok,
        exists|account: AccountView|
            loaded_account(*db, old(cache)@, address, account)
                && final(cache)@ == old(cache)@.insert(
                address,
                AccountView {
                    info: AccountInfoView { bytecode: bytes_seq(new_bytecode), ..account.info },
                    ..account
                },
            ),
{
    let mut account = get_account(cache, db, address);
    let ghost loaded = account@;
    account.info.bytecode = new_bytecode;
    cache.insert_account(address, account);
    assert(cache@ =~= old(cache)@.insert(address, account@));
    assert(loaded_account(*db, old(cache)@, address, loaded));
    Ok(())
}

/// What the access list of a transaction costs: so much for each address and
/// so much for each storage key.
pub open spec fn access_list_cost(access_list: Seq<(Address, Vec<H256>)>) -> int
    decreases access_list.len(),
{
    if access_list.len() == 0 {
        0
    } else {
        access_list_cost(access_list.drop_last()) + ACCESS_LIST_ADDRESS_COST
            + ACCESS_LIST_STORAGE_KEY_COST * access_list.last().1@.len()
    }
}

proof fn lemma_access_list_cost_prefix(access_list: Seq<(Address, Vec<H256>)>, n: int)
    requires
        0 <= n <= access_list.len(),
    ensures
        0 <= access_list_cost(access_list.subrange(0, n)) <= access_list_cost(access_list),
    decreases access_list.len(),
{
    if n == access_list.len() {
        assert(access_list.subrange(0, n) =~= access_list);
        if n > 0 {
            lemma_access_list_cost_prefix(access_list.drop_last(), n - 1);
            assert(access_list.drop_last().subrange(0, n - 1) =~= access_list.drop_last());
        }
    } else {
        lemma_access_list_cost_prefix(access_list.drop_last(), n);
        assert(access_list.drop_last().subrange(0, n) =~= access_list.subrange(0, n));
    }
}

/// What a creation pays on top: a base, and twice the number of words of its code.
pub open spec fn create_cost(is_create: bool, calldata_len: int) -> int {
    if is_create {
        CREATE_BASE_COST + 2 * ((calldata_len + 31) / 32)
    } else {
        0
    }
}

/// What a transaction pays before it runs: the base, its calldata, what a
/// creation adds, its access list and its authorizations. Each sum must fit
/// in 64 bits.
pub open spec fn intrinsic_gas(
    is_create: bool,
    fork: Fork,
    access_list: Seq<(Address, Vec<H256>)>,
    authorizations: int,
    calldata: Seq<u8>,
) -> Result<u64, VMError> {
    let data_cost = calldata_cost(calldata, fork);
    let before_authorizations = data_cost + TX_BASE_COST + create_cost(
        is_create,
        calldata.len() as int,
    ) + access_list_cost(access_list);
    let authorization_cost = PER_EMPTY_ACCOUNT_COST * authorizations;
    if data_cost > u64::MAX {
        Err(VMError::OutOfGas(OutOfGasError::GasUsedOverflow))
    } else if before_authorizations > u64::MAX {
        Err(VMError::OutOfGas(OutOfGasError::ConsumedGasOverflow))
    } else if authorization_cost > u64::MAX {
        Err(VMError::Internal(InternalError::GasOverflow))
    } else if before_authorizations + authorization_cost > u64::MAX {
        Err(VMError::OutOfGas(OutOfGasError::ConsumedGasOverflow))
    } else {
        Ok((before_authorizations + authorization_cost) as u64)
    }
}

/// How many authorizations a transaction carries.
pub open spec fn authorization_count(authorization_list: Option<AuthorizationList>) -> int {
    match authorization_list {
        Some(list) => list@.len() as int,
        None => 0,
    }
}

/// A plain transfer pays the base cost and nothing else.
pub proof fn lemma_intrinsic_gas_of_plain_transfer(fork: Fork)
    ensures
        intrinsic_gas(false, fork, Seq::empty(), 0, Seq::empty()) == Ok::<u64, VMError>(
            TX_BASE_COST,
        ),
{
    assert(crate::gas_cost::count_non_zero(Seq::<u8>::empty()) == 0);
    assert(access_list_cost(Seq::empty()) == 0);
}

/// What the transaction pays before it runs.
pub fn get_intrinsic_gas(
    is_create: bool,
    fork: Fork,
    access_list: &AccessList,
    authorization_list: &Option<AuthorizationList>,
    initial_call_frame: &CallFrame,
) -> (r: Result<u64, VMError>)
    ensures
        r == intrinsic_gas(
            is_create,
            fork,
            access_list@,
            authorization_count(*authorization_list),
            initial_call_frame@.calldata,
        ),
{
    let calldata_len = bytes_as_slice(&initial_call_frame.calldata).len();
    let calldata_cost = match tx_calldata(&initial_call_frame.calldata, fork) {
        Ok(cost) => cost,
        Err(e) => {
            return Err(VMError::OutOfGas(e));
        },
    };
    let mut intrinsic_gas: u128 = calldata_cost as u128 + TX_BASE_COST as u128;
    if is_create {
        let number_of_words: usize = calldata_len / 32 + if calldata_len % 32 != 0 {
            1usize
        } else {
            0usize
        };
        intrinsic_gas = intrinsic_gas + CREATE_BASE_COST as u128 + 2 * (number_of_words as u128);
    }
    let mut access_lists_cost: u128 = 0;
    let mut i: usize = 0;
    while i < access_list.len()
        invariant
            i <= access_list@.len(),
            access_lists_cost == access_list_cost(access_list@.subrange(0, i as int)),
            access_lists_cost <= u64::MAX,
            intrinsic_gas <= 2 * u64::MAX,
            intrinsic_gas == calldata_cost + TX_BASE_COST + create_cost(
                is_create,
                calldata_len as int,
            ),
            calldata_cost == crate::gas_cost::calldata_cost(initial_call_frame@.calldata, fork),
            calldata_len == initial_call_frame@.calldata.len(),
        decreases access_list@.len() - i,
    {
        let keys = access_list[i].1.len();
        proof {
            assert(access_list@.subrange(0, i + 1).drop_last() =~= access_list@.subrange(
                0,
                i as int,
            ));
            lemma_access_list_cost_prefix(access_list@, i + 1);
        }
        assert(ACCESS_LIST_STORAGE_KEY_COST * keys <= 1900 * 0x1_0000_0000_0000_0000)
            by (nonlinear_arith)
            requires
                keys <= 0x1_0000_0000_0000_0000,
        ;
        access_lists_cost = access_lists_cost + ACCESS_LIST_ADDRESS_COST as u128
            + (ACCESS_LIST_STORAGE_KEY_COST as u128) * (keys as u128);
        if access_lists_cost > u64::MAX as u128 {
            return Err(VMError::OutOfGas(OutOfGasError::ConsumedGasOverflow));
        }
        i += 1;
    }
    assert(access_list@.subrange(0, i as int) =~= access_list@);
    intrinsic_gas = intrinsic_gas + access_lists_cost;
    if intrinsic_gas > u64::MAX as u128 {
        return Err(VMError::OutOfGas(OutOfGasError::ConsumedGasOverflow));
    }
    let amount_of_auth_tuples: usize = match authorization_list {
        Some(list) => list.len(),
        None => 0,
    };
    assert(PER_EMPTY_ACCOUNT_COST * amount_of_auth_tuples <= 25000 * 0x1_0000_0000_0000_0000)
        by (nonlinear_arith)
        requires
            amount_of_auth_tuples <= 0x1_0000_0000_0000_0000,
    ;
    let authorization_list_cost: u128 = (PER_EMPTY_ACCOUNT_COST as u128) * (
    amount_of_auth_tuples as u128);
    if authorization_list_cost > u64::MAX as u128 {
        return Err(VMError::Internal(InternalError::GasOverflow));
    }
    intrinsic_gas = intrinsic_gas + authorization_list_cost;
    if intrinsic_gas > u64::MAX as u128 {
        return Err(VMError::OutOfGas(OutOfGasError::ConsumedGasOverflow));
    }
    Ok(intrinsic_gas as u64)
}

/// The price of a unit of blob gas, given the excess blob gas of the block.
pub fn get_base_fee_per_blob_gas(block_excess_blob_gas: Option<U256>, evm_config: &EVMConfig) -> (r:
    Result<U256, VMError>)
    ensures
        r == fake_exponential_spec(
            MIN_BASE_FEE_PER_BLOB_GAS as nat,
            match block_excess_blob_gas {
                Some(excess) => excess@,
                None => 0,
            },
            evm_config.blob_schedule.base_fee_update_fraction as nat,
        ),
{
    let base_fee_update_fraction = evm_config.blob_schedule.base_fee_update_fraction;
    let excess = match block_excess_blob_gas {
        Some(excess) => excess,
        None => U256::zero(),
    };
    fake_exponential(
        U256::from_u64(MIN_BASE_FEE_PER_BLOB_GAS),
        excess,
        U256::from_u64(base_fee_update_fraction),
    )
}

/// The blob gas that `blobs` blobs use; zero where that does not fit in 64 bits.
pub open spec fn blob_gas_used(blobs: int) -> nat {
    if blobs * BLOB_GAS_PER_BLOB <= u64::MAX {
        (blobs * BLOB_GAS_PER_BLOB) as nat
    } else {
        0
    }
}

fn blob_gas(blobs: usize) -> (r: u64)
    ensures
        r == blob_gas_used(blobs as int),
{
    match (blobs as u64).checked_mul(BLOB_GAS_PER_BLOB) {
        Some(gas) => gas,
        None => 0,
    }
}

/// The product of a price and an amount of blob gas, where it fits in a word.
pub open spec fn blob_fee(price: nat, gas: nat) -> Result<U256, VMError> {
    if price * gas >= word_modulus() {
        Err(VMError::Internal(InternalError::UndefinedState(1)))
    } else {
        Ok(word(price * gas))
    }
}

/// The most that the sender is willing to pay for the blobs of the transaction.
pub fn get_max_blob_gas_price(tx_blob_hashes: Vec<H256>, tx_max_fee_per_blob_gas: Option<U256>) -> (r:
    Result<U256, VMError>)
    ensures
        r == blob_fee(
            match tx_max_fee_per_blob_gas {
                Some(fee) => fee@,
                None => 0,
            },
            blob_gas_used(tx_blob_hashes@.len() as int),
        ),
{
    let blob_gas_used = blob_gas(tx_blob_hashes.len());
    let max_fee = match tx_max_fee_per_blob_gas {
        Some(fee) => fee,
        None => U256::zero(),
    };
    match max_fee.checked_mul(U256::from_u64(blob_gas_used)) {
        Some(cost) => {
            proof {
                lemma_word_of_view(cost);
            }
            Ok(cost)
        },
        None => Err(VMError::Internal(InternalError::UndefinedState(1))),
    }
}

/// What the blobs of the transaction cost at the block's price of blob gas.
pub open spec fn blob_gas_price(blobs: int, excess: nat, fraction: nat) -> Result<U256, VMError> {
    match fake_exponential_spec(MIN_BASE_FEE_PER_BLOB_GAS as nat, excess, fraction) {
        Err(e) => Err(e),
        Ok(base_fee) => blob_fee(blob_gas_used(blobs), base_fee@),
    }
}

/// What the blobs of the transaction cost at the block's price of blob gas.
pub fn get_blob_gas_price(
    tx_blob_hashes: Vec<H256>,
    block_excess_blob_gas: Option<U256>,
    evm_config: &EVMConfig,
) -> (r: Result<U256, VMError>)
    ensures
        r == blob_gas_price(
            tx_blob_hashes@.len() as int,
            match block_excess_blob_gas {
                Some(excess) => excess@,
                None => 0,
            },
            evm_config.blob_schedule.base_fee_update_fraction as nat,
        ),
{
    let blob_gas_price = blob_gas(tx_blob_hashes.len());
    let base_fee_per_blob_gas = match get_base_fee_per_blob_gas(
        block_excess_blob_gas,
        evm_config,
    ) {
        Ok(fee) => fee,
        Err(e) => {
            return Err(e);
        },
    };
    match U256::from_u64(blob_gas_price).checked_mul(base_fee_per_blob_gas) {
        Some(fee) => {
            proof {
                lemma_word_of_view(fee);
            }
            Ok(fee)
        },
        None => Err(VMError::Internal(InternalError::UndefinedState(1))),
    }
}

/// The number in the name of an opcode of a numbered family, such as 3 for
/// DUP3 with DUP1 as the base. Fails where `op` comes before `base_opcode`.
pub fn get_n_value(op: Opcode, base_opcode: Opcode) -> (r: Result<usize, VMError>)
    ensures
        r == if op.byte() >= base_opcode.byte() {
            Ok::<usize, VMError>((op.byte() - base_opcode.byte() + 1) as usize)
        } else {
            Err::<usize, VMError>(VMError::InvalidOpcode)
        },
{
    match op.to_usize().checked_sub(base_opcode.to_usize()) {
        Some(difference) => Ok(difference + 1),
        None => Err(VMError::InvalidOpcode),
    }
}

/// How many topics a LOG opcode takes. Fails for an opcode that comes before LOG0.
pub fn get_number_of_topics(op: Opcode) -> (r: Result<u8, VMError>)
    ensures
        r == if op.byte() >= Opcode::LOG0.byte() {
            Ok::<u8, VMError>((op.byte() - Opcode::LOG0.byte()) as u8)
        } else {
            Err::<u8, VMError>(VMError::InvalidOpcode)
        },
{
    match op.to_u8().checked_sub(Opcode::LOG0.to_u8()) {
        Some(number_of_topics) => Ok(number_of_topics),
        None => Err(VMError::InvalidOpcode),
    }
}

/// Raises the nonce of the account at `address` by one and returns it.
pub fn increment_account_nonce<D: Database>(cache: &mut CacheDB, db: &D, address: Address) -> (r:
    Result<u64, VMError>)
    requires
        old(cache).wf(),
    ensures
        final(cache).wf(),
        exists|account: AccountView|
            loaded_account(*db, old(cache)@, address, account) && match nonce_incremented(account) {
                Ok(after) => r == Ok::<u64, VMError>(after.info.nonce)
                    && final(cache)@ == old(cache)@.insert(address, after),
                Err(e) => r == Err::<u64, _>(e) && final(cache)@ == old(cache)@.insert(
                    address,
                    account,
                ),
            },
{
    let mut account = get_account(cache, db, address);
    let ghost loaded = account@;
    let r = account.increment_nonce();
    if r.is_ok() {
        cache.insert_account(address, account);
    }
    assert(cache@ =~= old(cache)@.insert(address, account@));
    assert(loaded_account(*db, old(cache)@, address, loaded));
    r
}

/// Lowers the nonce of the account at `address` by one.
pub fn decrement_account_nonce<D: Database>(cache: &mut CacheDB, db: &D, address: Address) -> (r:
    Result<(), VMError>)
    requires
        old(cache).wf(),
    ensures
        final(cache).wf(),
        exists|account: AccountView|
            loaded_account(*db, old(cache)@, address, account) && match nonce_decremented(account) {
                Ok(after) => r is Ok && final(cache)@ == old(cache)@.insert(address, after),
                Err(e) => r == Err::<(), _>(e) && final(cache)@ == old(cache)@.insert(
                    address,
                    account,
                ),
            },
{
    let mut account = get_account(cache, db, address);
    let ghost loaded = account@;
    let r = account.decrement_nonce();
    if r.is_ok() {
        cache.insert_account(address, account);
    }
    assert(cache@ =~= old(cache)@.insert(address, account@));
    assert(loaded_account(*db, old(cache)@, address, loaded));
    r
}

/// Whether `code` is a delegation designator: the three prefix bytes and an address.
pub open spec fn is_delegation_designator(code: Seq<u8>) -> bool {
    &&& code.len() == EIP7702_DELEGATED_CODE_LEN
    &&& code[0] == SET_CODE_DELEGATION_BYTE_0
    &&& code[1] == SET_CODE_DELEGATION_BYTE_1
    &&& code[2] == SET_CODE_DELEGATION_BYTE_2
}

/// Whether the account's code is a delegation designator.
pub fn has_delegation(account_info: &AccountInfo) -> (r: Result<bool, VMError>)
    ensures
        r == Ok::<bool, VMError>(is_delegation_designator(account_info@.bytecode)),
{
    let code = bytes_as_slice(&account_info.bytecode);
    if code.len() == EIP7702_DELEGATED_CODE_LEN {
        Ok(
            code[0] == SET_CODE_DELEGATION_BYTE_0 && code[1] == SET_CODE_DELEGATION_BYTE_1
                && code[2] == SET_CODE_DELEGATION_BYTE_2,
        )
    } else {
        Ok(false)
    }
}

/// The address that the account's code delegates to; fails for an account
/// whose code is no delegation designator.
pub fn get_authorized_address(account_info: &AccountInfo) -> (r: Result<Address, VMError>)
    ensures
        match r {
            Ok(address) => is_delegation_designator(account_info@.bytecode) && address.0@
                == account_info@.bytecode.subrange(3, 23),
            Err(e) => !is_delegation_designator(account_info@.bytecode) && e == VMError::Internal(
                InternalError::AccountNotDelegated,
            ),
        },
{
    match has_delegation(account_info) {
        Ok(true) => {
            let code = bytes_as_slice(&account_info.bytecode);
            Ok(Address::from_slice(&code[3..23]))
        },
        _ => Err(VMError::Internal(InternalError::AccountNotDelegated)),
    }
}

/// The order of the group of the secp256k1 curve.
pub open spec fn secp256k1_order() -> nat {
    0xFFFFFFFF_FFFFFFFF_FFFFFFFF_FFFFFFFE_BAAEDCE6_AF48A03B_BFD25E8C_D0364141nat
}

/// Half the order of the group, rounded down.
pub open spec fn secp256k1_order_over_2() -> nat {
    0x7FFFFFFF_FFFFFFFF_FFFFFFFF_FFFFFFFF_5D576E73_57A4501D_DFE92F46_681B20A0nat
}

/// Whether the signature of an authorization may be given to recovery: `s`
/// from one to half the order, `r` from one to the order, `v` zero or one.
pub open spec fn signature_in_range(auth: AuthorizationTuple) -> bool {
    &&& 0 < auth.s_signature@ <= secp256k1_order_over_2()
    &&& 0 < auth.r_signature@ <= secp256k1_order()
    &&& auth.v@ <= 1
}

/// Whether the signature of an authorization may be given to recovery.
pub fn authorization_signature_in_range(auth_tuple: &AuthorizationTuple) -> (r: bool)
    ensures
        r == signature_in_range(*auth_tuple),
{
    let order = U256 {
        l0: 0xBFD25E8CD0364141,
        l1: 0xBAAEDCE6AF48A03B,
        l2: 0xFFFFFFFFFFFFFFFE,
        l3: 0xFFFFFFFFFFFFFFFF,
    };
    let order_over_2 = U256 {
        l0: 0xDFE92F46681B20A0,
        l1: 0x5D576E7357A4501D,
        l2: 0xFFFFFFFFFFFFFFFF,
        l3: 0x7FFFFFFFFFFFFFFF,
    };
    assert(order@ == secp256k1_order());
    assert(order_over_2@ == secp256k1_order_over_2());
    if auth_tuple.s_signature.gt(&order_over_2) || auth_tuple.s_signature.is_zero() {
        return false;
    }
    if auth_tuple.r_signature.gt(&order) || auth_tuple.r_signature.is_zero() {
        return false;
    }
    auth_tuple.v.le(&U256::one())
}

/// The bytes that the signer of an authorization signed the hash of: the
/// magic byte, then the list of chain id, address and nonce.
pub open spec fn authorization_message(auth: AuthorizationTuple) -> Seq<u8> {
    seq![MAGIC] + rlp_list(
        rlp_uint(auth.chain_id@) + rlp_string(auth.address.0@) + rlp_uint(auth.nonce as nat),
    )
}

/// The bytes that the signer of an authorization signed the hash of.
pub fn authorization_message_bytes(auth_tuple: &AuthorizationTuple) -> (r: Vec<u8>)
    ensures
        r@ == authorization_message(*auth_tuple),
{
    let mut payload: Vec<u8> = Vec::new();
    encode_uint(auth_tuple.chain_id, &mut payload);
    encode_address(&auth_tuple.address, &mut payload);
    encode_uint(U256::from_u64(auth_tuple.nonce), &mut payload);
    assert(payload@ =~= rlp_uint(auth_tuple.chain_id@) + rlp_string(auth_tuple.address.0@)
        + rlp_uint(auth_tuple.nonce as nat));
    let rlp_buf = encode_list(payload.as_slice());
    let mut r: Vec<u8> = Vec::new();
    r.push(MAGIC);
    extend(&mut r, rlp_buf.as_slice());
    r
}

/// The address of the holder of a public key: the last twenty bytes of the
/// hash of the key without its first byte.
pub open spec fn public_key_address(key: Seq<u8>) -> Seq<u8> {
    sha3_keccak256_digest(key.subrange(1, 65)).subrange(12, 32)
}

/// The address of the holder of an uncompressed public key.
pub fn public_key_to_address(public_key: &[u8; 65]) -> (r: Address)
    ensures
        r.0@ == public_key_address(public_key@),
{
    let address_hash = sha3_keccak256(&public_key.as_slice()[1..65]);
    Address::from_slice(&address_hash.as_slice()[12..32])
}

/// The address that signed an authorization, where its signature is in range
/// and a public key can be recovered from it.
pub open spec fn recovered_authority(auth: AuthorizationTuple) -> Option<Seq<u8>> {
    if !signature_in_range(auth) {
        None
    } else {
        match secp256k1_recovered_key(
            sha3_keccak256_digest(authorization_message(auth)),
            nat_to_be(auth.r_signature@, 32) + nat_to_be(auth.s_signature@, 32),
            auth.v@ as u8,
        ) {
            Some(key) => Some(public_key_address(key)),
            None => None,
        }
    }
}

/// The address that signed an authorization. An authorization whose
/// signature is out of range, or from which no key can be recovered, has no
/// signer: that is `None`, not an error.
pub fn eip7702_recover_address(auth_tuple: &AuthorizationTuple) -> (r: Result<
    Option<Address>,
    VMError,
>)
    ensures
        r is Ok,
        match r->Ok_0 {
            Some(address) => recovered_authority(*auth_tuple) == Some(address.0@),
            None => recovered_authority(*auth_tuple) is None,
        },
{
    if !authorization_signature_in_range(auth_tuple) {
        return Ok(None);
    }
    let message = authorization_message_bytes(auth_tuple);
    let hash = sha3_keccak256(message.as_slice());
    let r_bytes = auth_tuple.r_signature.to_big_endian();
    let s_bytes = auth_tuple.s_signature.to_big_endian();
    let mut signature = [0u8; 64];
    let mut i: usize = 0;
    while i < 32
        invariant
            i <= 32,
            forall|j: int| 0 <= j < i ==> signature@[j] == r_bytes@[j],
            forall|j: int| 0 <= j < i ==> signature@[32 + j] == s_bytes@[j],
        decreases 32 - i,
    {
        signature[i] = r_bytes[i];
        signature[32 + i] = s_bytes[i];
        i += 1;
    }
    assert(signature@ =~= r_bytes@ + s_bytes@);
    let recovery_id: u8 = if auth_tuple.v.is_zero() {
        0
    } else {
        1
    };
    match recover_public_key(&hash, &signature, recovery_id) {
        Some(public_key) => Ok(Some(public_key_to_address(&public_key))),
        None => Ok(None),
    }
}

/// What resolving the code of `address` gives when the cache holds `account`
/// for it and `target` for the address that `account` may delegate to:
/// whether it delegates, the address whose code runs, and that code. Only
/// one delegation is followed.
pub open spec fn resolved_code(address: Address, account: AccountView, target: AccountView) -> (
    bool,
    Seq<u8>,
    Seq<u8>,
) {
    if is_delegation_designator(account.info.bytecode) {
        (true, account.info.bytecode.subrange(3, 23), target.info.bytecode)
    } else {
        (false, address.0@, account.info.bytecode)
    }
}

/// The code found behind a delegation is returned as it is, also where it is
/// itself a delegation designator.
pub proof fn lemma_resolution_is_one_hop(address: Address, account: AccountView, target: AccountView)
    requires
        is_delegation_designator(account.info.bytecode),
    ensures
        resolved_code(address, account, target).2 == target.info.bytecode,
        is_delegation_designator(target.info.bytecode) ==> is_delegation_designator(
            resolved_code(address, account, target).2,
        ),
{
}

/// Whether resolving the code of `address` may end as described, given that
/// `account` was loaded for `address` and `target` for the address that
/// `account` delegates to, where it delegates.
pub open spec fn code_resolution<D: Database>(
    db: D,
    cache: Map<Address, AccountView>,
    touched: Set<Address>,
    address: Address,
    account: AccountView,
    target: AccountView,
    is_delegated: bool,
    access_cost: u64,
    code_address: Address,
    code: Seq<u8>,
    cache_after: Map<Address, AccountView>,
    touched_after: Set<Address>,
) -> bool {
    let resolved = resolved_code(address, account, target);
    let after_first = cache.insert(address, account);
    &&& loaded_account(db, cache, address, account)
    &&& is_delegated == resolved.0
    &&& code_address.0@ == resolved.1
    &&& code == resolved.2
    &&& !is_delegated ==> {
        &&& access_cost == 0
        &&& cache_after == after_first
        &&& touched_after == touched
    }
    &&& is_delegated ==> {
        &&& loaded_account(db, after_first, code_address, target)
        &&& cache_after == after_first.insert(code_address, target)
        &&& access_cost == if touched.contains(code_address) {
            WARM_ADDRESS_ACCESS_COST
        } else {
            COLD_ADDRESS_ACCESS_COST
        }
        &&& touched_after == touched.insert(code_address)
    }
}

/// The code that runs when `address` is called, and what reaching it costs.
/// For an account without delegation that is its own code, at no cost. For a
/// delegating account it is the code of the account delegated to, at the
/// warm price where that account was touched before, else at the cold price;
/// the account then counts as touched.
pub fn eip7702_get_code<D: Database>(
    cache: &mut CacheDB,
    db: &D,
    accrued_substate: &mut Substate,
    address: Address,
) -> (r: Result<(bool, u64, Address, Bytes), VMError>)
    requires
        old(cache).wf(),
    ensures
        final(cache).wf(),
        r is Ok,
        exists|account: AccountView, target: AccountView| #[trigger]
            code_resolution(
                *db,
                old(cache)@,
                old(accrued_substate).touched_accounts@,
                address,
                account,
                target,
                r->Ok_0.0,
                r->Ok_0.1,
                r->Ok_0.2,
                bytes_seq(r->Ok_0.3),
                final(cache)@,
                final(accrued_substate).touched_accounts@,
            ),
{
    let account = get_account(cache, db, address);
    let bytecode = bytes_clone(&account.info.bytecode);
    let ghost first = account@;
    let delegated = match has_delegation(&account.info) {
        Ok(delegated) => delegated,
        Err(e) => {
            return Err(e);
        },
    };
    if !delegated {
        let resolved = (false, 0u64, address, bytecode);
        assert(code_resolution(
            *db,
            old(cache)@,
            old(accrued_substate).touched_accounts@,
            address,
            first,
            first,
            resolved.0,
            resolved.1,
            resolved.2,
            bytes_seq(resolved.3),
            cache@,
            accrued_substate.touched_accounts@,
        ));
        let r: Result<(bool, u64, Address, Bytes), VMError> = Ok(resolved);
        assert(r->Ok_0 == resolved);
        return r;
    }
    let auth_address = match get_authorized_address(&account.info) {
        Ok(auth_address) => auth_address,
        Err(e) => {
            return Err(e);
        },
    };
    let access_cost = if accrued_substate.touched_accounts.contains(&auth_address) {
        assert(accrued_substate.touched_accounts@ =~= accrued_substate.touched_accounts@.insert(
            auth_address,
        ));
        WARM_ADDRESS_ACCESS_COST
    } else {
        accrued_substate.touched_accounts.insert(auth_address);
        COLD_ADDRESS_ACCESS_COST
    };
    let target = get_account(cache, db, auth_address);
    let authorized_bytecode = bytes_clone(&target.info.bytecode);
    let resolved = (true, access_cost, auth_address, authorized_bytecode);
    assert(code_resolution(
        *db,
        old(cache)@,
        old(accrued_substate).touched_accounts@,
        address,
        first,
        target@,
        resolved.0,
        resolved.1,
        resolved.2,
        bytes_seq(resolved.3),
        cache@,
        accrued_substate.touched_accounts@,
    ));
    let r: Result<(bool, u64, Address, Bytes), VMError> = Ok(resolved);
    assert(r->Ok_0 == resolved);
    r
}

} // verus!
