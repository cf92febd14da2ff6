//! The value types of the machine: the 256-bit word, the 20-byte address and
//! the 32-byte hash, with the big-endian byte order that ties them together.

use vstd::prelude::*;

verus! {

/// Two to the power 256: the first natural number that no word holds.
pub open spec fn word_modulus() -> nat {
    0x1_0000_0000_0000_0000_0000_0000_0000_0000_0000_0000_0000_0000_0000_0000_0000_0000nat
}

/// The number that a byte sequence denotes when read most significant byte first.
pub open spec fn be_to_nat(bytes: Seq<u8>) -> nat
    decreases bytes.len(),
{
    if bytes.len() == 0 {
        0
    } else {
        be_to_nat(bytes.drop_last()) * 256 + bytes.last() as nat
    }
}

/// The `len` low-order base-256 digits of `n`, most significant first.
pub open spec fn nat_to_be(n: nat, len: nat) -> Seq<u8>
    decreases len,
{
    if len == 0 {
        Seq::empty()
    } else {
        nat_to_be(n / 256, (len - 1) as nat).push((n % 256) as u8)
    }
}

/// 256 to the power `len`.
pub open spec fn pow256(len: nat) -> nat
    decreases len,
{
    if len == 0 {
        1
    } else {
        256 * pow256((len - 1) as nat)
    }
}

pub proof fn lemma_nat_to_be_len(n: nat, len: nat)
    ensures
        nat_to_be(n, len).len() == len,
    decreases len,
{
    if len > 0 {
        lemma_nat_to_be_len(n / 256, (len - 1) as nat);
    }
}

/// Reading back the digits of `n` gives `n` again, up to the digits that were cut off.
pub proof fn lemma_be_round_trip(n: nat, len: nat)
    ensures
        be_to_nat(nat_to_be(n, len)) == n % pow256(len),
    decreases len,
{
    if len == 0 {
    } else {
        let rest = nat_to_be(n / 256, (len - 1) as nat);
        let s = nat_to_be(n, len);
        lemma_be_round_trip(n / 256, (len - 1) as nat);
        assert(s.drop_last() =~= rest);
        assert(s.last() == (n % 256) as u8);
        let p = pow256((len - 1) as nat);
        lemma_pow256_positive((len - 1) as nat);
        vstd::arithmetic::div_mod::lemma_breakdown(n as int, 256, p as int);
    }
}

pub proof fn lemma_pow256_positive(len: nat)
    ensures
        pow256(len) > 0,
    decreases len,
{
    if len > 0 {
        lemma_pow256_positive((len - 1) as nat);
    }
}

/// 256 to the power 32 is two to the power 256.
pub proof fn lemma_pow256_of_32()
    ensures
        pow256(32) == word_modulus(),
{
    assert(pow256(0) == 1);
    assert(pow256(1) == 0x100nat);
    assert(pow256(2) == 0x10000nat);
    assert(pow256(3) == 0x1000000nat);
    assert(pow256(4) == 0x100000000nat);
    assert(pow256(5) == 0x10000000000nat);
    assert(pow256(6) == 0x1000000000000nat);
    assert(pow256(7) == 0x100000000000000nat);
    assert(pow256(8) == 0x10000000000000000nat);
    assert(pow256(9) == 0x1000000000000000000nat);
    assert(pow256(10) == 0x100000000000000000000nat);
    assert(pow256(11) == 0x10000000000000000000000nat);
    assert(pow256(12) == 0x1000000000000000000000000nat);
    assert(pow256(13) == 0x100000000000000000000000000nat);
    assert(pow256(14) == 0x10000000000000000000000000000nat);
    assert(pow256(15) == 0x1000000000000000000000000000000nat);
    assert(pow256(16) == 0x100000000000000000000000000000000nat);
    assert(pow256(17) == 0x10000000000000000000000000000000000nat);
    assert(pow256(18) == 0x1000000000000000000000000000000000000nat);
    assert(pow256(19) == 0x100000000000000000000000000000000000000nat);
    assert(pow256(20) == 0x10000000000000000000000000000000000000000nat);
    assert(pow256(21) == 0x1000000000000000000000000000000000000000000nat);
    assert(pow256(22) == 0x100000000000000000000000000000000000000000000nat);
    assert(pow256(23) == 0x10000000000000000000000000000000000000000000000nat);
    assert(pow256(24) == 0x1000000000000000000000000000000000000000000000000nat);
    assert(pow256(25) == 0x100000000000000000000000000000000000000000000000000nat);
    assert(pow256(26) == 0x10000000000000000000000000000000000000000000000000000nat);
    assert(pow256(27) == 0x1000000000000000000000000000000000000000000000000000000nat);
    assert(pow256(28) == 0x100000000000000000000000000000000000000000000000000000000nat);
    assert(pow256(29) == 0x10000000000000000000000000000000000000000000000000000000000nat);
    assert(pow256(30) == 0x1000000000000000000000000000000000000000000000000000000000000nat);
    assert(pow256(31) == 0x100000000000000000000000000000000000000000000000000000000000000nat);
    assert(pow256(32) == 0x10000000000000000000000000000000000000000000000000000000000000000nat);
}

/// Zero bytes in front do not change the number denoted.
pub proof fn lemma_be_leading_zeros(zeros: Seq<u8>, bytes: Seq<u8>)
    requires
        forall|i: int| 0 <= i < zeros.len() ==> zeros[i] == 0,
    ensures
        be_to_nat(zeros + bytes) == be_to_nat(bytes),
    decreases bytes.len(),
{
    if bytes.len() == 0 {
        assert(zeros + bytes =~= zeros);
        lemma_be_zeros(zeros);
    } else {
        lemma_be_leading_zeros(zeros, bytes.drop_last());
        assert((zeros + bytes).drop_last() =~= zeros + bytes.drop_last());
    }
}

pub proof fn lemma_be_zeros(zeros: Seq<u8>)
    requires
        forall|i: int| 0 <= i < zeros.len() ==> zeros[i] == 0,
    ensures
        be_to_nat(zeros) == 0,
    decreases zeros.len(),
{
    if zeros.len() > 0 {
        lemma_be_zeros(zeros.drop_last());
    }
}

/// `n`, or the largest `usize` where `n` is larger.
pub open spec fn saturated(n: nat) -> usize {
    if n <= usize::MAX {
        n as usize
    } else {
        usize::MAX
    }
}

/// A 256-bit unsigned word, held as four 64-bit limbs, `l0` the least significant.
#[derive(Clone, Copy, Debug, PartialEq, Eq, Hash, Structural)]
pub struct U256 {
    pub l0: u64,
    pub l1: u64,
    pub l2: u64,
    pub l3: u64,
}

impl View for U256 {
    type V = nat;

    open spec fn view(&self) -> nat {
        (self.l0 as nat) + (self.l1 as nat) * 0x1_0000_0000_0000_0000nat + (self.l2 as nat)
            * 0x1_0000_0000_0000_0000_0000_0000_0000_0000nat + (self.l3 as nat)
            * 0x1_0000_0000_0000_0000_0000_0000_0000_0000_0000_0000_0000_0000nat
    }
}

/// The word whose value is `n`, taken modulo two to the 256.
pub open spec fn word(n: nat) -> U256 {
    let q1 = n / 0x1_0000_0000_0000_0000nat;
    let q2 = q1 / 0x1_0000_0000_0000_0000nat;
    let q3 = q2 / 0x1_0000_0000_0000_0000nat;
    U256 {
        l0: (n % 0x1_0000_0000_0000_0000nat) as u64,
        l1: (q1 % 0x1_0000_0000_0000_0000nat) as u64,
        l2: (q2 % 0x1_0000_0000_0000_0000nat) as u64,
        l3: (q3 % 0x1_0000_0000_0000_0000nat) as u64,
    }
}

/// The word of a number below two to the 256 has that number as its value.
pub proof fn lemma_word_value(n: nat)
    requires
        n < word_modulus(),
    ensures
        word(n)@ == n,
{
    let b = 0x1_0000_0000_0000_0000nat;
    let q1 = n / b;
    let q2 = q1 / b;
    let q3 = q2 / b;
    assert(n == b * q1 + n % b);
    assert(q1 == b * q2 + q1 % b);
    assert(q2 == b * q3 + q2 % b);
    assert(q1 < 0x1_0000_0000_0000_0000_0000_0000_0000_0000_0000_0000_0000_0000nat);
    assert(q2 < 0x1_0000_0000_0000_0000_0000_0000_0000_0000nat);
    assert(q3 < b);
    assert(q3 % b == q3);
}

/// A word is the word of its value, and its value is below two to the 256.
pub proof fn lemma_word_of_view(w: U256)
    ensures
        word(w@) == w,
        w@ < word_modulus(),
{
    let b = 0x1_0000_0000_0000_0000nat;
    let n = w@;
    let x2 = w.l2 as nat + b * (w.l3 as nat);
    let x1 = w.l1 as nat + b * x2;
    assert(n == w.l0 as nat + b * x1);
    assert(n / b == x1 && n % b == w.l0 as nat);
    assert(x1 / b == x2 && x1 % b == w.l1 as nat);
    assert(x2 / b == w.l3 as nat && x2 % b == w.l2 as nat);
    assert((w.l3 as nat) % b == w.l3 as nat);
}

/// `U256::checked_mul` of ethereum-types: the product of the two words, or
/// `None` where the product does not fit in 256 bits.
#[verifier::external_body]
fn outside_checked_mul(a: U256, b: U256) -> (r: Option<U256>)
    ensures
        a@ * b@ < word_modulus() ==> r is Some && r->0@ == a@ * b@,
        a@ * b@ >= word_modulus() ==> r is None,
{
    let x = ethereum_types::U256([a.l0, a.l1, a.l2, a.l3]);
    let y = ethereum_types::U256([b.l0, b.l1, b.l2, b.l3]);
    match x.checked_mul(y) {
        Some(p) => Some(U256 { l0: p.0[0], l1: p.0[1], l2: p.0[2], l3: p.0[3] }),
        None => None,
    }
}

/// `U256::checked_div` of ethereum-types: the quotient rounded down, or `None`
/// where the divisor is zero.
#[verifier::external_body]
fn outside_checked_div(a: U256, b: U256) -> (r: Option<U256>)
    ensures
        b@ != 0 ==> r is Some && r->0@ == a@ / b@,
        b@ == 0 ==> r is None,
{
    let x = ethereum_types::U256([a.l0, a.l1, a.l2, a.l3]);
    let y = ethereum_types::U256([b.l0, b.l1, b.l2, b.l3]);
    match x.checked_div(y) {
        Some(q) => Some(U256 { l0: q.0[0], l1: q.0[1], l2: q.0[2], l3: q.0[3] }),
        None => None,
    }
}

/// `U256::from_big_endian` of ethereum-types: the word that at most 32 bytes
/// denote when read most significant byte first. The outside function panics
/// on a longer slice.
#[verifier::external_body]
fn outside_from_big_endian(bytes: &[u8]) -> (r: U256)
    requires
        bytes@.len() <= 32,
    ensures
        r@ == be_to_nat(bytes@),
{
    let w = ethereum_types::U256::from_big_endian(bytes);
    U256 { l0: w.0[0], l1: w.0[1], l2: w.0[2], l3: w.0[3] }
}

/// `U256::to_big_endian` of ethereum-types: the 32 bytes of the word, most
/// significant first.
#[verifier::external_body]
fn outside_to_big_endian(a: U256) -> (r: [u8; 32])
    ensures
        r@ == nat_to_be(a@, 32),
{
    ethereum_types::U256([a.l0, a.l1, a.l2, a.l3]).to_big_endian()
}

impl U256 {
    pub fn zero() -> (r: U256)
        ensures
            r@ == 0,
    {
        U256 { l0: 0, l1: 0, l2: 0, l3: 0 }
    }

    pub fn one() -> (r: U256)
        ensures
            r@ == 1,
    {
        U256 { l0: 1, l1: 0, l2: 0, l3: 0 }
    }

    /// The largest word, two to the 256 minus one.
    pub fn max_value() -> (r: U256)
        ensures
            r@ == word_modulus() - 1,
    {
        U256 {
            l0: 0xffff_ffff_ffff_ffff,
            l1: 0xffff_ffff_ffff_ffff,
            l2: 0xffff_ffff_ffff_ffff,
            l3: 0xffff_ffff_ffff_ffff,
        }
    }

    pub fn from_u64(value: u64) -> (r: U256)
        ensures
            r@ == value,
    {
        U256 { l0: value, l1: 0, l2: 0, l3: 0 }
    }

    pub fn from_usize(value: usize) -> (r: U256)
        ensures
            r@ == value,
    {
        U256 { l0: value as u64, l1: 0, l2: 0, l3: 0 }
    }

    pub fn is_zero(&self) -> (r: bool)
        ensures
            r == (self@ == 0),
    {
        self.l0 == 0 && self.l1 == 0 && self.l2 == 0 && self.l3 == 0
    }

    pub fn lt(&self, other: &U256) -> (r: bool)
        ensures
            r == (self@ < other@),
    {
        if self.l3 != other.l3 {
            self.l3 < other.l3
        } else if self.l2 != other.l2 {
            self.l2 < other.l2
        } else if self.l1 != other.l1 {
            self.l1 < other.l1
        } else {
            self.l0 < other.l0
        }
    }

    pub fn le(&self, other: &U256) -> (r: bool)
        ensures
            r == (self@ <= other@),
    {
        !other.lt(self)
    }

    pub fn gt(&self, other: &U256) -> (r: bool)
        ensures
            r == (self@ > other@),
    {
        other.lt(self)
    }

    pub fn ge(&self, other: &U256) -> (r: bool)
        ensures
            r == (self@ >= other@),
    {
        !self.lt(other)
    }

    /// The sum, or `None` where it does not fit in 256 bits.
    pub fn checked_add(self, other: U256) -> (r: Option<U256>)
        ensures
            self@ + other@ < word_modulus() ==> r is Some && r->0@ == self@ + other@,
            self@ + other@ >= word_modulus() ==> r is None,
    {
        let s0: u128 = self.l0 as u128 + other.l0 as u128;
        let s1: u128 = self.l1 as u128 + other.l1 as u128 + s0 / 0x1_0000_0000_0000_0000;
        let s2: u128 = self.l2 as u128 + other.l2 as u128 + s1 / 0x1_0000_0000_0000_0000;
        let s3: u128 = self.l3 as u128 + other.l3 as u128 + s2 / 0x1_0000_0000_0000_0000;
        if s3 / 0x1_0000_0000_0000_0000 != 0 {
            None
        } else {
            Some(
                U256 {
                    l0: (s0 % 0x1_0000_0000_0000_0000) as u64,
                    l1: (s1 % 0x1_0000_0000_0000_0000) as u64,
                    l2: (s2 % 0x1_0000_0000_0000_0000) as u64,
                    l3: (s3 % 0x1_0000_0000_0000_0000) as u64,
                },
            )
        }
    }

    /// The difference, or `None` where `other` is the larger.
    pub fn checked_sub(self, other: U256) -> (r: Option<U256>)
        ensures
            self@ >= other@ ==> r is Some && r->0@ == self@ - other@,
            self@ < other@ ==> r is None,
    {
        if self.lt(&other) {
            return None;
        }
        let base: u128 = 0x1_0000_0000_0000_0000;
        let d0: u128 = base + self.l0 as u128 - other.l0 as u128;
        let b0: u128 = 1 - d0 / base;
        let d1: u128 = base + self.l1 as u128 - other.l1 as u128 - b0;
        let b1: u128 = 1 - d1 / base;
        let d2: u128 = base + self.l2 as u128 - other.l2 as u128 - b1;
        let b2: u128 = 1 - d2 / base;
        let d3: u128 = base + self.l3 as u128 - other.l3 as u128 - b2;
        Some(
            U256 {
                l0: (d0 % base) as u64,
                l1: (d1 % base) as u64,
                l2: (d2 % base) as u64,
                l3: (d3 % base) as u64,
            },
        )
    }

    /// The difference, or zero where `other` is the larger.
    pub fn saturating_sub(self, other: U256) -> (r: U256)
        ensures
            r@ == if self@ >= other@ {
                self@ - other@
            } else {
                0
            },
    {
        match self.checked_sub(other) {
            Some(d) => d,
            None => U256::zero(),
        }
    }

    /// The product, or `None` where it does not fit in 256 bits.
    pub fn checked_mul(self, other: U256) -> (r: Option<U256>)
        ensures
            self@ * other@ < word_modulus() ==> r is Some && r->0@ == self@ * other@,
            self@ * other@ >= word_modulus() ==> r is None,
    {
        outside_checked_mul(self, other)
    }

    /// The quotient rounded down, or `None` where `other` is zero.
    pub fn checked_div(self, other: U256) -> (r: Option<U256>)
        ensures
            other@ != 0 ==> r is Some && r->0@ == self@ / other@,
            other@ == 0 ==> r is None,
    {
        outside_checked_div(self, other)
    }

    /// The word that at most 32 bytes denote, most significant byte first.
    pub fn from_big_endian(bytes: &[u8]) -> (r: U256)
        requires
            bytes@.len() <= 32,
        ensures
            r@ == be_to_nat(bytes@),
    {
        outside_from_big_endian(bytes)
    }

    /// The 32 bytes of the word, most significant first.
    pub fn to_big_endian(&self) -> (r: [u8; 32])
        ensures
            r@ == nat_to_be(self@, 32),
            be_to_nat(r@) == self@,
    {
        let r = outside_to_big_endian(*self);
        proof {
            lemma_be_round_trip(self@, 32);
            lemma_pow256_of_32();
            assert(self@ < word_modulus());
            assert(self@ % word_modulus() == self@);
        }
        r
    }

    /// The word as a `u64`, where it fits.
    pub fn to_u64(&self) -> (r: Option<u64>)
        ensures
            self@ <= u64::MAX ==> r == Some(self@ as u64),
            self@ > u64::MAX ==> r is None,
    {
        if self.l1 == 0 && self.l2 == 0 && self.l3 == 0 {
            Some(self.l0)
        } else {
            None
        }
    }

    /// The word as a `usize`, or the largest `usize` where it does not fit.
    pub fn to_usize_saturating(&self) -> (r: usize)
        ensures
            r == saturated(self@),
    {
        match self.to_usize() {
            Some(value) => value,
            None => usize::MAX,
        }
    }

    /// The word as a `usize`, where it fits.
    pub fn to_usize(&self) -> (r: Option<usize>)
        ensures
            self@ <= usize::MAX ==> r == Some(self@ as usize),
            self@ > usize::MAX ==> r is None,
    {
        if self.l1 == 0 && self.l2 == 0 && self.l3 == 0 && self.l0 <= usize::MAX as u64 {
            Some(self.l0 as usize)
        } else {
            None
        }
    }
}

/// A 20-byte account address.
#[derive(Clone, Copy, Debug, Eq, Hash)]
pub struct Address(pub [u8; 20]);

impl PartialEq for Address {
    fn eq(&self, other: &Self) -> (r: bool) {
        self.same(other)
    }
}

impl vstd::std_specs::cmp::PartialEqSpecImpl for Address {
    open spec fn obeys_eq_spec() -> bool {
        true
    }

    open spec fn eq_spec(&self, other: &Self) -> bool {
        *self == *other
    }
}

impl Address {
    /// Whether the two addresses are one.
    pub fn same(&self, other: &Address) -> (r: bool)
        ensures
            r == (*self == *other),
    {
        let mut i: usize = 0;
        while i < 20
            invariant
                i <= 20,
                forall|j: int| 0 <= j < i ==> self.0[j] == other.0[j],
            decreases 20 - i,
        {
            if self.0[i] != other.0[i] {
                return false;
            }
            i += 1;
        }
        assert(self.0 =~= other.0);
        true
    }

    /// The address of twenty zero bytes.
    pub fn zero() -> (r: Address)
        ensures
            r.0@ == Seq::new(20, |i: int| 0u8),
    {
        let r = Address([0u8; 20]);
        assert(r.0@ =~= Seq::new(20, |i: int| 0u8));
        r
    }

    /// The address that twenty bytes spell.
    pub fn from_slice(bytes: &[u8]) -> (r: Address)
        requires
            bytes@.len() == 20,
        ensures
            r.0@ == bytes@,
    {
        let mut out = [0u8; 20];
        let mut i: usize = 0;
        while i < 20
            invariant
                i <= 20,
                bytes@.len() == 20,
                forall|j: int| 0 <= j < i ==> out@[j] == bytes@[j],
            decreases 20 - i,
        {
            out[i] = bytes[i];
            i += 1;
        }
        assert(out@ =~= bytes@);
        Address(out)
    }

    pub fn as_bytes(&self) -> (r: &[u8; 20])
        ensures
            *r == self.0,
    {
        &self.0
    }
}

/// A 32-byte hash.
#[derive(Clone, Copy, Debug, Eq, Hash)]
pub struct H256(pub [u8; 32]);

impl PartialEq for H256 {
    fn eq(&self, other: &Self) -> (r: bool) {
        let mut i: usize = 0;
        while i < 32
            invariant
                i <= 32,
                forall|j: int| 0 <= j < i ==> self.0[j] == other.0[j],
            decreases 32 - i,
        {
            if self.0[i] != other.0[i] {
                return false;
            }
            i += 1;
        }
        assert(self.0 =~= other.0);
        true
    }
}

impl vstd::std_specs::cmp::PartialEqSpecImpl for H256 {
    open spec fn obeys_eq_spec() -> bool {
        true
    }

    open spec fn eq_spec(&self, other: &Self) -> bool {
        *self == *other
    }
}

impl H256 {
    /// The hash of thirty-two zero bytes.
    pub fn zero() -> (r: H256)
        ensures
            r.0@ == Seq::new(32, |i: int| 0u8),
    {
        let r = H256([0u8; 32]);
        assert(r.0@ =~= Seq::new(32, |i: int| 0u8));
        r
    }

    pub fn as_bytes(&self) -> (r: &[u8; 32])
        ensures
            *r == self.0,
    {
        &self.0
    }

    /// The hash read as a word, most significant byte first.
    pub fn to_word(&self) -> (r: U256)
        ensures
            r@ == be_to_nat(self.0@),
    {
        U256::from_big_endian(self.0.as_slice())
    }
}

} // verus!
