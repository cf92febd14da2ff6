//! Recursive-length-prefix encoding of the values that the machine hashes:
//! byte strings, unsigned integers, and lists of these.

use crate::primitives::{
    be_to_nat, lemma_be_leading_zeros, lemma_pow256_positive, pow256, Address, U256,
};
use vstd::prelude::*;

verus! {

/// The base-256 digits of `n`, most significant first, none of them a leading
/// zero. Zero has no digits.
pub open spec fn be_minimal(n: nat) -> Seq<u8>
    decreases n,
{
    if n == 0 {
        Seq::empty()
    } else {
        be_minimal(n / 256).push((n % 256) as u8)
    }
}

/// The header of an item whose payload has `len` bytes. `offset` is 0x80 for
/// a string and 0xc0 for a list.
pub open spec fn rlp_header(len: nat, offset: u8) -> Seq<u8> {
    if len <= 55 {
        seq![(offset + len) as u8]
    } else {
        seq![(offset + 55 + be_minimal(len).len()) as u8] + be_minimal(len)
    }
}

/// The encoding of a byte string.
pub open spec fn rlp_string(bytes: Seq<u8>) -> Seq<u8> {
    if bytes.len() == 1 && bytes[0] < 0x80 {
        bytes
    } else {
        rlp_header(bytes.len(), 0x80) + bytes
    }
}

/// The encoding of an unsigned integer: the string of its digits.
pub open spec fn rlp_uint(n: nat) -> Seq<u8> {
    rlp_string(be_minimal(n))
}

/// The encoding of a list, given the encodings of its items one after another.
pub open spec fn rlp_list(payload: Seq<u8>) -> Seq<u8> {
    rlp_header(payload.len(), 0xc0) + payload
}

/// A digit sequence without a leading zero is the minimal one of its number.
pub proof fn lemma_minimal_digits(digits: Seq<u8>)
    requires
        digits.len() > 0 ==> digits[0] != 0,
    ensures
        be_minimal(be_to_nat(digits)) == digits,
        digits.len() > 0 ==> be_to_nat(digits) >= pow256((digits.len() - 1) as nat),
    decreases digits.len(),
{
    if digits.len() > 0 {
        let front = digits.drop_last();
        lemma_minimal_digits(front);
        let n = be_to_nat(digits);
        if front.len() > 0 {
            lemma_pow256_positive((front.len() - 1) as nat);
            assert(n >= 256);
        }
        assert(n != 0);
        assert(n / 256 == be_to_nat(front));
        assert(be_minimal(n) =~= digits);
    }
}

proof fn lemma_pow256_monotone(a: nat, b: nat)
    requires
        a <= b,
    ensures
        pow256(a) <= pow256(b),
    decreases b,
{
    if a < b {
        lemma_pow256_monotone(a, (b - 1) as nat);
        lemma_pow256_positive((b - 1) as nat);
    }
}

/// A number that fits in 64 bits has at most eight digits.
pub proof fn lemma_minimal_digits_of_u64(n: nat)
    requires
        n <= u64::MAX,
    ensures
        be_minimal(n).len() <= 8,
    decreases n,
{
    let digits = be_minimal(n);
    lemma_be_of_minimal(n);
    if digits.len() > 8 {
        lemma_minimal_digits(digits);
        lemma_pow256_monotone(8, (digits.len() - 1) as nat);
        assert(pow256(8) == 0x1_0000_0000_0000_0000nat) by {
            assert(pow256(0) == 1);
            assert(pow256(1) == 0x100nat);
            assert(pow256(2) == 0x1_0000nat);
            assert(pow256(3) == 0x100_0000nat);
            assert(pow256(4) == 0x1_0000_0000nat);
            assert(pow256(5) == 0x100_0000_0000nat);
            assert(pow256(6) == 0x1_0000_0000_0000nat);
            assert(pow256(7) == 0x100_0000_0000_0000nat);
        }
    }
}

/// The minimal digits of `n` denote `n` and do not start with zero.
pub proof fn lemma_be_of_minimal(n: nat)
    ensures
        be_to_nat(be_minimal(n)) == n,
        n > 0 ==> be_minimal(n).len() > 0 && be_minimal(n)[0] != 0,
        n == 0 ==> be_minimal(n).len() == 0,
    decreases n,
{
    if n > 0 {
        lemma_be_of_minimal(n / 256);
        let digits = be_minimal(n);
        assert(digits.drop_last() =~= be_minimal(n / 256));
        if n / 256 > 0 {
            assert(digits[0] == be_minimal(n / 256)[0]);
        }
    }
}

/// Appends `bytes` to `out`.
pub fn extend(out: &mut Vec<u8>, bytes: &[u8])
    ensures
        final(out)@ == old(out)@ + bytes@,
{
    let mut i: usize = 0;
    while i < bytes.len()
        invariant
            i <= bytes@.len(),
            out@ == old(out)@ + bytes@.subrange(0, i as int),
        decreases bytes@.len() - i,
    {
        out.push(bytes[i]);
        i += 1;
    }
    assert(bytes@.subrange(0, i as int) =~= bytes@);
}

/// The digits of a word, without leading zeros.
pub fn minimal_be_bytes(value: U256) -> (r: Vec<u8>)
    ensures
        r@ == be_minimal(value@),
{
    let bytes = value.to_big_endian();
    let mut start: usize = 0;
    while start < 32 && bytes[start] == 0
        invariant
            start <= 32,
            forall|j: int| 0 <= j < start ==> bytes@[j] == 0,
        decreases 32 - start,
    {
        start += 1;
    }
    let mut r: Vec<u8> = Vec::new();
    let mut i: usize = start;
    while i < 32
        invariant
            start <= i <= 32,
            r@ == bytes@.subrange(start as int, i as int),
        decreases 32 - i,
    {
        r.push(bytes[i]);
        i += 1;
    }
    proof {
        let zeros = bytes@.subrange(0, start as int);
        assert(bytes@ =~= zeros + r@);
        lemma_be_leading_zeros(zeros, r@);
        lemma_minimal_digits(r@);
    }
    r
}

/// Appends the header of an item whose payload has `len` bytes.
pub fn encode_header(len: usize, offset: u8, out: &mut Vec<u8>)
    requires
        offset == 0x80 || offset == 0xc0,
    ensures
        final(out)@ == old(out)@ + rlp_header(len as nat, offset),
{
    if len <= 55 {
        out.push(offset + len as u8);
        assert(out@ =~= old(out)@ + rlp_header(len as nat, offset));
    } else {
        let digits = minimal_be_bytes(U256::from_usize(len));
        proof {
            lemma_minimal_digits_of_u64(len as nat);
        }
        out.push(offset + 55 + digits.len() as u8);
        extend(out, digits.as_slice());
        assert(out@ =~= old(out)@ + rlp_header(len as nat, offset));
    }
}

/// Appends the encoding of a byte string.
pub fn encode_bytes(bytes: &[u8], out: &mut Vec<u8>)
    ensures
        final(out)@ == old(out)@ + rlp_string(bytes@),
{
    if bytes.len() == 1 && bytes[0] < 0x80 {
        out.push(bytes[0]);
        assert(out@ =~= old(out)@ + rlp_string(bytes@));
    } else {
        encode_header(bytes.len(), 0x80, out);
        extend(out, bytes);
        assert(out@ =~= old(out)@ + rlp_string(bytes@));
    }
}

/// Appends the encoding of a word as an unsigned integer.
pub fn encode_uint(value: U256, out: &mut Vec<u8>)
    ensures
        final(out)@ == old(out)@ + rlp_uint(value@),
{
    let digits = minimal_be_bytes(value);
    encode_bytes(digits.as_slice(), out);
}

/// Appends the encoding of an address: the string of its twenty bytes.
pub fn encode_address(address: &Address, out: &mut Vec<u8>)
    ensures
        final(out)@ == old(out)@ + rlp_string(address.0@),
{
    encode_bytes(address.0.as_slice(), out);
}

/// The encoding of the list whose items, already encoded, make up `payload`.
pub fn encode_list(payload: &[u8]) -> (r: Vec<u8>)
    ensures
        r@ == rlp_list(payload@),
{
    let mut r: Vec<u8> = Vec::new();
    encode_header(payload.len(), 0xc0, &mut r);
    extend(&mut r, payload);
    assert(r@ =~= rlp_list(payload@));
    r
}

} // verus!
