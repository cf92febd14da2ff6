//! What each operation costs. The functions here compute; none of them
//! changes anything.

use crate::buffer::{bytes_as_slice, bytes_seq};
use crate::environment::Fork;
use crate::errors::{InternalError, OutOfGasError, VMError};
use crate::primitives::{lemma_word_of_view, word, word_modulus, U256};
use bytes::Bytes;
use vstd::prelude::*;

verus! {

pub const BLOCKHASH: u64 = 20;

pub const COINBASE: u64 = 2;

pub const TIMESTAMP: u64 = 2;

pub const NUMBER: u64 = 2;

pub const PREVRANDAO: u64 = 2;

pub const GASLIMIT: u64 = 2;

pub const CHAINID: u64 = 2;

pub const SELFBALANCE: u64 = 5;

pub const BASEFEE: u64 = 2;

pub const BLOBHASH: u64 = 3;

pub const BLOBBASEFEE: u64 = 2;

pub const POP: u64 = 2;

pub const TLOAD: u64 = 100;

pub const TSTORE: u64 = 100;

pub const MLOAD_STATIC: u64 = 3;

pub const MSTORE_STATIC: u64 = 3;

pub const MSTORE8_STATIC: u64 = 3;

pub const JUMP: u64 = 8;

pub const JUMPI: u64 = 10;

pub const PC: u64 = 2;

pub const MSIZE: u64 = 2;

pub const GAS: u64 = 2;

pub const JUMPDEST: u64 = 1;

pub const MCOPY_STATIC: u64 = 3;

pub const MCOPY_DYNAMIC_BASE: u64 = 3;

pub const WARM_ADDRESS_ACCESS_COST: u64 = 100;

pub const COLD_ADDRESS_ACCESS_COST: u64 = 2600;

pub const ACCESS_LIST_ADDRESS_COST: u64 = 2400;

pub const ACCESS_LIST_STORAGE_KEY_COST: u64 = 1900;

pub const CREATE_BASE_COST: u64 = 32000;

pub const BLOB_GAS_PER_BLOB: u64 = 131072;

pub const CALLDATA_COST_ZERO_BYTE: u64 = 4;

pub const CALLDATA_COST_NON_ZERO_BYTE: u64 = 16;

/// What a non-zero byte of calldata cost before Istanbul.
pub const CALLDATA_COST_NON_ZERO_BYTE_LEGACY: u64 = 68;

/// How many bytes of `data` are not zero.
pub open spec fn count_non_zero(data: Seq<u8>) -> nat
    decreases data.len(),
{
    if data.len() == 0 {
        0
    } else {
        count_non_zero(data.drop_last()) + if data.last() != 0 {
            1nat
        } else {
            0nat
        }
    }
}

/// What a non-zero byte of calldata costs under `fork`.
pub open spec fn non_zero_byte_cost(fork: Fork) -> nat {
    if fork.rank() >= Fork::Istanbul.rank() {
        CALLDATA_COST_NON_ZERO_BYTE as nat
    } else {
        CALLDATA_COST_NON_ZERO_BYTE_LEGACY as nat
    }
}

/// The price of a transaction's calldata: so much for each zero byte, and so
/// much, by the fork, for each other byte.
pub open spec fn calldata_cost(data: Seq<u8>, fork: Fork) -> int {
    (data.len() - count_non_zero(data)) * CALLDATA_COST_ZERO_BYTE as int + count_non_zero(data)
        * non_zero_byte_cost(fork)
}

/// The price of a transaction's calldata, unless it does not fit in 64 bits.
pub fn tx_calldata(calldata: &Bytes, fork: Fork) -> (r: Result<u64, OutOfGasError>)
    ensures
        match r {
            Ok(cost) => cost == calldata_cost(bytes_seq(*calldata), fork),
            Err(e) => e == OutOfGasError::GasUsedOverflow && calldata_cost(
                bytes_seq(*calldata),
                fork,
            ) > u64::MAX,
        },
{
    let data = bytes_as_slice(calldata);
    let mut non_zero: usize = 0;
    let mut i: usize = 0;
    while i < data.len()
        invariant
            i <= data@.len(),
            non_zero <= i,
            non_zero == count_non_zero(data@.subrange(0, i as int)),
        decreases data@.len() - i,
    {
        assert(data@.subrange(0, i + 1).drop_last() =~= data@.subrange(0, i as int));
        if data[i] != 0 {
            non_zero += 1;
        }
        i += 1;
    }
    assert(data@.subrange(0, i as int) =~= data@);
    let per_byte: u128 = if fork.at_least(Fork::Istanbul) {
        CALLDATA_COST_NON_ZERO_BYTE as u128
    } else {
        CALLDATA_COST_NON_ZERO_BYTE_LEGACY as u128
    };
    let zero: u128 = (data.len() - non_zero) as u128;
    assert(zero * 4 <= 4 * 0x1_0000_0000_0000_0000 && non_zero * per_byte <= 68
        * 0x1_0000_0000_0000_0000) by (nonlinear_arith)
        requires
            zero <= 0x1_0000_0000_0000_0000,
            non_zero <= 0x1_0000_0000_0000_0000,
            per_byte <= 68,
    ;
    let total: u128 = zero * (CALLDATA_COST_ZERO_BYTE as u128) + (non_zero as u128) * per_byte;
    assert(total == calldata_cost(data@, fork)) by (nonlinear_arith)
        requires
            total == zero * 4 + non_zero * per_byte,
            zero == data@.len() - count_non_zero(data@),
            non_zero == count_non_zero(data@),
            per_byte == non_zero_byte_cost(fork),
            calldata_cost(data@, fork) == (data@.len() - count_non_zero(data@)) * 4
                + count_non_zero(data@) * non_zero_byte_cost(fork),
    ;
    if total > u64::MAX as u128 {
        Err(OutOfGasError::GasUsedOverflow)
    } else {
        Ok(total as u64)
    }
}

/// How many more terms of the series can be larger than the one before.
pub open spec fn growth_steps(numerator: nat, denominator: nat, i: nat) -> nat {
    if denominator * i <= numerator {
        (numerator - denominator * i + 1) as nat
    } else {
        0
    }
}

/// The sum of the series from its `i`-th term, `accum`, on: each term is the
/// one before, times `numerator`, divided by `denominator * i`, and the
/// series ends with the first term that is zero.
pub open spec fn series_sum(accum: nat, numerator: nat, denominator: nat, i: nat) -> nat
    decreases growth_steps(numerator, denominator, i), accum,
    when denominator > 0 && i > 0
    via series_sum_decreases
{
    if accum == 0 {
        0
    } else {
        accum + series_sum(
            accum * numerator / (denominator * i),
            numerator,
            denominator,
            i + 1,
        )
    }
}

#[via_fn]
proof fn series_sum_decreases(accum: nat, numerator: nat, denominator: nat, i: nat) {
    if accum != 0 {
        lemma_series_step(accum, numerator, denominator, i);
    }
}

/// Whether every number met on the way to `series_sum` fits in a word, when
/// the terms before `accum` add up to `output`.
pub open spec fn series_fits(
    output: nat,
    accum: nat,
    numerator: nat,
    denominator: nat,
    i: nat,
) -> bool
    decreases growth_steps(numerator, denominator, i), accum,
    when denominator > 0 && i > 0
    via series_fits_decreases
{
    if accum == 0 {
        true
    } else {
        &&& output + accum < word_modulus()
        &&& accum * numerator < word_modulus()
        &&& denominator * i < word_modulus()
        &&& i + 1 < word_modulus()
        &&& series_fits(
            output + accum,
            accum * numerator / (denominator * i),
            numerator,
            denominator,
            i + 1,
        )
    }
}

#[via_fn]
proof fn series_fits_decreases(
    output: nat,
    accum: nat,
    numerator: nat,
    denominator: nat,
    i: nat,
) {
    if accum != 0 {
        lemma_series_step(accum, numerator, denominator, i);
    }
}

/// From one term to the next the series comes closer to its end.
proof fn lemma_series_step(accum: nat, numerator: nat, denominator: nat, i: nat)
    requires
        accum > 0,
        denominator > 0,
        i > 0,
    ensures
        denominator * i > 0,
        growth_steps(numerator, denominator, i + 1) < growth_steps(numerator, denominator, i)
            || (growth_steps(numerator, denominator, i + 1) == growth_steps(
            numerator,
            denominator,
            i,
        ) && accum * numerator / (denominator * i) < accum),
{
    let di = denominator * i;
    assert(denominator * (i + 1) == di + denominator) by (nonlinear_arith)
        requires
            di == denominator * i,
    ;
    assert(di > 0) by (nonlinear_arith)
        requires
            di == denominator * i,
            denominator > 0,
            i > 0,
    ;
    if di > numerator {
        assert(accum * numerator / di < accum) by (nonlinear_arith)
            requires
                numerator < di,
                accum > 0,
        ;
    }
}

/// The approximation of `factor * e^(numerator / denominator)` that prices
/// blob gas: the series summed in whole numbers, every step checked against
/// the size of a word.
pub open spec fn fake_exponential_spec(factor: nat, numerator: nat, denominator: nat) -> Result<
    U256,
    VMError,
> {
    if denominator == 0 {
        Err(VMError::Internal(InternalError::ArithmeticOperationDividedByZero))
    } else if factor * denominator >= word_modulus() || !series_fits(
        0,
        factor * denominator,
        numerator,
        denominator,
        1,
    ) {
        Err(VMError::Internal(InternalError::ArithmeticOperationOverflow))
    } else {
        Ok(word(series_sum(factor * denominator, numerator, denominator, 1) / denominator))
    }
}

/// With a zero numerator the series has one term, and the result is the factor.
pub proof fn lemma_fake_exponential_zero_numerator(factor: U256, denominator: U256)
    requires
        denominator@ > 0,
        factor@ * denominator@ < word_modulus(),
    ensures
        fake_exponential_spec(factor@, 0, denominator@) == Ok::<U256, VMError>(factor),
{
    let f = factor@;
    let d = denominator@;
    let first = f * d;
    lemma_word_of_view(factor);
    lemma_word_of_view(denominator);
    if first == 0 {
        assert(f == 0) by (nonlinear_arith)
            requires
                f * d == 0,
                d > 0,
        ;
        assert(series_sum(first, 0, d, 1) == 0);
        assert(series_fits(0, first, 0, d, 1));
    } else {
        assert(first * 0 / (d * 1) == 0) by (nonlinear_arith)
            requires
                d > 0,
        ;
        assert(d * 1 == d) by (nonlinear_arith);
        assert(first * 0 == 0) by (nonlinear_arith);
        assert(series_sum(0, 0, d, 2) == 0);
        assert(series_fits(first, 0, 0, d, 2));
        assert(series_sum(first, 0, d, 1) == first);
        assert(series_fits(0, first, 0, d, 1));
        assert(first / d == f) by (nonlinear_arith)
            requires
                first == f * d,
                d > 0,
        ;
    }
}

/// The approximation of `factor * e^(numerator / denominator)` that prices
/// blob gas.
pub fn fake_exponential(factor: U256, numerator: U256, denominator: U256) -> (r: Result<
    U256,
    VMError,
>)
    ensures
        r == fake_exponential_spec(factor@, numerator@, denominator@),
{
    let overflow = VMError::Internal(InternalError::ArithmeticOperationOverflow);
    let divided_by_zero = VMError::Internal(InternalError::ArithmeticOperationDividedByZero);
    let ghost n = numerator@;
    let ghost d = denominator@;
    let mut i = U256::one();
    let mut output = U256::zero();
    let mut numerator_accum = match factor.checked_mul(denominator) {
        Some(product) => product,
        None => {
            assert(d > 0) by (nonlinear_arith)
                requires
                    factor@ * d >= word_modulus(),
            ;
            return Err(overflow);
        },
    };
    let ghost first = numerator_accum@;
    proof {
        if d == 0 {
            assert(first == 0) by (nonlinear_arith)
                requires
                    first == factor@ * d,
                    d == 0,
            ;
        }
    }
    while !numerator_accum.is_zero()
        invariant
            i@ >= 1,
            d == denominator@,
            n == numerator@,
            first == factor@ * d,
            first < word_modulus(),
            overflow == VMError::Internal(InternalError::ArithmeticOperationOverflow),
            d > 0 || numerator_accum@ == 0,
            d > 0 ==> output@ + series_sum(numerator_accum@, n, d, i@) == series_sum(
                first,
                n,
                d,
                1,
            ),
            d > 0 ==> series_fits(output@, numerator_accum@, n, d, i@) == series_fits(
                0,
                first,
                n,
                d,
                1,
            ),
        decreases word_modulus() - i@,
    {
        proof {
            lemma_series_step(numerator_accum@, n, d, i@);
            lemma_word_of_view(i);
        }
        output = match output.checked_add(numerator_accum) {
            Some(sum) => sum,
            None => {
                return Err(overflow);
            },
        };
        let mult_numerator = match numerator_accum.checked_mul(numerator) {
            Some(product) => product,
            None => {
                return Err(overflow);
            },
        };
        let mult_denominator = match denominator.checked_mul(i) {
            Some(product) => product,
            None => {
                return Err(overflow);
            },
        };
        numerator_accum = match mult_numerator.checked_div(mult_denominator) {
            Some(quotient) => quotient,
            None => {
                return Err(divided_by_zero);
            },
        };
        i = match i.checked_add(U256::one()) {
            Some(next) => next,
            None => {
                return Err(overflow);
            },
        };
    }
    match output.checked_div(denominator) {
        Some(quotient) => {
            proof {
                lemma_word_of_view(quotient);
            }
            Ok(quotient)
        },
        None => Err(divided_by_zero),
    }
}

} // verus!
