//! The byte memory of a call frame. It starts empty, grows by whole words and
//! never shrinks; what growth has not written is zero.

use crate::constants::WORD_SIZE;
use crate::errors::{OutOfGasError, VMError};
use crate::primitives::{
    be_to_nat, lemma_be_round_trip, lemma_nat_to_be_len, lemma_pow256_of_32, lemma_word_of_view,
    nat_to_be, word_modulus, U256,
};
use vstd::prelude::*;

verus! {

/// The number of 32-byte words that `size` bytes take.
pub open spec fn memory_words(size: int) -> int {
    (size + 31) / 32
}

/// The total price of a memory of `size` bytes: a linear and a quadratic part.
pub open spec fn memory_cost(size: int) -> int {
    let words = memory_words(size);
    words * words / 512 + 3 * words
}

/// The price of growing a memory of `current` bytes so that it holds `new_size`.
pub open spec fn expansion_cost(current: int, new_size: int) -> int {
    if new_size <= current {
        0
    } else {
        memory_cost(new_size) - memory_cost(current)
    }
}

/// The price of growing a memory of `current` bytes so that it holds
/// `new_size`, or the failure where such a memory cannot be addressed or its
/// price does not fit in 64 bits.
pub open spec fn checked_expansion_cost(current: int, new_size: int) -> Result<u64, VMError> {
    if new_size <= current {
        Ok(0)
    } else if new_size + 31 > usize::MAX || memory_cost(new_size) > u64::MAX {
        Err(VMError::OutOfGas(OutOfGasError::MemoryExpansionCostOverflow))
    } else {
        Ok(expansion_cost(current, new_size) as u64)
    }
}

/// A larger memory never costs less.
pub proof fn lemma_memory_cost_monotone(a: int, b: int)
    requires
        0 <= a <= b,
    ensures
        memory_cost(a) <= memory_cost(b),
{
    let wa = memory_words(a);
    let wb = memory_words(b);
    assert(0 <= wa <= wb);
    assert(wa * wa <= wb * wb) by (nonlinear_arith)
        requires
            0 <= wa <= wb,
    ;
    vstd::arithmetic::div_mod::lemma_div_is_ordered(wa * wa, wb * wb, 512);
}

/// Growing in two steps costs what growing in one step does.
pub proof fn lemma_expansion_cost_additive(a: int, b: int, c: int)
    requires
        0 <= a <= b <= c,
    ensures
        expansion_cost(a, b) + expansion_cost(b, c) == expansion_cost(a, c),
{
    lemma_memory_cost_monotone(a, b);
    lemma_memory_cost_monotone(b, c);
    lemma_memory_cost_monotone(a, c);
}

/// `size` rounded up to a whole number of words.
pub open spec fn round_up(size: int) -> int {
    memory_words(size) * 32
}

/// `n` zero bytes.
pub open spec fn zeros(n: int) -> Seq<u8> {
    Seq::new(n as nat, |i: int| 0u8)
}

/// The memory after it has grown to hold `size` bytes: unchanged where it is
/// large enough, else filled up with zeros to the next whole word.
pub open spec fn grown(memory: Seq<u8>, size: int) -> Seq<u8> {
    if round_up(size) > memory.len() {
        memory + zeros(round_up(size) - memory.len())
    } else {
        memory
    }
}

/// `memory` with `bytes` written over what stood at `offset`.
pub open spec fn written(memory: Seq<u8>, offset: int, bytes: Seq<u8>) -> Seq<u8> {
    memory.subrange(0, offset) + bytes + memory.subrange(
        offset + bytes.len(),
        memory.len() as int,
    )
}

/// What storing `bytes` at `offset` makes of `memory`.
pub open spec fn stored(memory: Seq<u8>, offset: int, bytes: Seq<u8>) -> Seq<u8> {
    written(grown(memory, offset + bytes.len()), offset, bytes)
}

/// What copying `size` bytes from `src` to `dest` makes of `memory`: the bytes
/// are read before any is written.
pub open spec fn copied(memory: Seq<u8>, src: int, dest: int, size: int) -> Seq<u8> {
    let larger = if src >= dest {
        src
    } else {
        dest
    };
    let m = grown(memory, larger + size);
    written(m, dest, m.subrange(src, src + size))
}

/// Growth keeps what was there, and a grown memory is a whole number of words.
pub proof fn lemma_grown(memory: Seq<u8>, size: int)
    requires
        memory.len() % 32 == 0,
        0 <= size,
    ensures
        grown(memory, size).len() % 32 == 0,
        grown(memory, size).len() >= size,
        grown(memory, size).len() >= memory.len(),
        grown(memory, size).subrange(0, memory.len() as int) == memory,
        size <= memory.len() ==> grown(memory, size) == memory,
{
    assert(grown(memory, size).subrange(0, memory.len() as int) =~= memory);
}

/// Bytes stored are the bytes found at that place afterwards.
pub proof fn lemma_store_then_read(memory: Seq<u8>, offset: int, bytes: Seq<u8>)
    requires
        memory.len() % 32 == 0,
        0 <= offset,
    ensures
        stored(memory, offset, bytes).subrange(offset, offset + bytes.len()) == bytes,
        stored(memory, offset, bytes).len() == grown(memory, offset + bytes.len()).len(),
{
    lemma_grown(memory, offset + bytes.len());
    assert(stored(memory, offset, bytes).subrange(offset, offset + bytes.len())
        =~= bytes);
}

/// A word stored is the word loaded from the same place, and loading it
/// grows the memory no further.
pub proof fn lemma_store_then_load(memory: Seq<u8>, offset: int, value: U256)
    requires
        memory.len() % 32 == 0,
        0 <= offset,
    ensures
        grown(stored(memory, offset, nat_to_be(value@, 32)), offset + 32) == stored(
            memory,
            offset,
            nat_to_be(value@, 32),
        ),
        be_to_nat(
            stored(memory, offset, nat_to_be(value@, 32)).subrange(offset, offset + 32),
        ) == value@,
{
    let bytes = nat_to_be(value@, 32);
    lemma_nat_to_be_len(value@, 32);
    lemma_store_then_read(memory, offset, bytes);
    lemma_grown(memory, offset + 32);
    lemma_be_round_trip(value@, 32);
    lemma_pow256_of_32();
    lemma_word_of_view(value);
    assert(value@ % word_modulus() == value@);
}

pub struct Memory {
    data: Vec<u8>,
}

impl View for Memory {
    type V = Seq<u8>;

    closed spec fn view(&self) -> Seq<u8> {
        self.data@
    }
}

impl Memory {
    /// The memory is a whole number of words, and no larger than can be
    /// addressed.
    pub open spec fn wf(&self) -> bool {
        self@.len() % 32 == 0 && self@.len() <= usize::MAX
    }

    /// Whether the memory is well formed.
    pub fn is_well_formed(&self) -> (r: bool)
        ensures
            r == self.wf(),
    {
        self.data.len() % WORD_SIZE == 0
    }

    /// Whether a memory of `size` bytes, rounded up to whole words, can be addressed.
    pub open spec fn addressable(size: int) -> bool {
        size + 31 <= usize::MAX
    }

    pub fn new() -> (r: Memory)
        ensures
            r.wf(),
            r@ == Seq::<u8>::empty(),
    {
        Memory { data: Vec::new() }
    }

    /// The number of bytes the memory holds.
    pub fn len(&self) -> (r: usize)
        ensures
            r == self@.len(),
    {
        self.data.len()
    }

    /// The number of bytes the memory holds, as a word.
    pub fn size(&self) -> (r: U256)
        ensures
            r@ == self@.len(),
    {
        U256::from_usize(self.data.len())
    }

    /// Grows the memory so that it holds `size` bytes.
    pub fn resize(&mut self, size: usize)
        requires
            old(self).wf(),
            Self::addressable(size as int),
        ensures
            final(self).wf(),
            final(self)@ == grown(old(self)@, size as int),
            final(self)@.len() >= old(self)@.len(),
    {
        let target = (size + (WORD_SIZE - 1)) / WORD_SIZE * WORD_SIZE;
        if target > self.data.len() {
            self.data.resize(target, 0u8);
            assert(self.data@ =~= grown(old(self)@, size as int));
        }
        proof {
            lemma_grown(old(self)@, size as int);
        }
    }

    /// The price of growing the memory so that it holds `size` bytes: nothing
    /// where it already does. Fails where such a memory cannot be addressed or
    /// its price does not fit in 64 bits.
    pub fn expansion_cost(&self, size: usize) -> (r: Result<u64, VMError>)
        requires
            self.wf(),
        ensures
            r == checked_expansion_cost(self@.len() as int, size as int),
            r is Ok ==> Self::addressable(size as int),
    {
        if size <= self.data.len() {
            return Ok(0);
        }
        if size > usize::MAX - (WORD_SIZE - 1) {
            return Err(VMError::OutOfGas(OutOfGasError::MemoryExpansionCostOverflow));
        }
        let new_cost = Self::cost(size);
        let old_cost = Self::cost(self.data.len());
        proof {
            lemma_memory_cost_monotone(self@.len() as int, size as int);
        }
        if new_cost > u64::MAX as u128 {
            return Err(VMError::OutOfGas(OutOfGasError::MemoryExpansionCostOverflow));
        }
        Ok((new_cost - old_cost) as u64)
    }

    /// The total price of a memory of `size` bytes.
    fn cost(size: usize) -> (r: u128)
        requires
            Self::addressable(size as int),
        ensures
            r == memory_cost(size as int),
    {
        let words: u128 = ((size + (WORD_SIZE - 1)) / WORD_SIZE) as u128;
        assert(words * words <= 0x0800_0000_0000_0000 * 0x0800_0000_0000_0000)
            by (nonlinear_arith)
            requires
                words <= 0x0800_0000_0000_0000,
        ;
        words * words / 512 + 3 * words
    }

    /// Reads the word at `offset`, most significant byte first, after growing
    /// the memory so that it holds the word.
    pub fn load(&mut self, offset: usize) -> (r: U256)
        requires
            old(self).wf(),
            Self::addressable(offset + 32),
        ensures
            final(self).wf(),
            final(self)@ == grown(old(self)@, offset + 32),
            final(self)@.len() >= old(self)@.len(),
            r@ == be_to_nat(final(self)@.subrange(offset as int, offset + 32)),
    {
        self.resize(offset + WORD_SIZE);
        proof {
            lemma_grown(old(self)@, offset + 32);
        }
        U256::from_big_endian(&self.data.as_slice()[offset..offset + WORD_SIZE])
    }

    /// Reads `size` bytes at `offset`, after growing the memory so that it holds them.
    pub fn load_range(&mut self, offset: usize, size: usize) -> (r: Vec<u8>)
        requires
            old(self).wf(),
            Self::addressable(offset + size),
        ensures
            final(self).wf(),
            final(self)@ == grown(old(self)@, offset + size),
            final(self)@.len() >= old(self)@.len(),
            r@ == final(self)@.subrange(offset as int, offset + size),
    {
        self.resize(offset + size);
        proof {
            lemma_grown(old(self)@, offset + size);
        }
        let mut r: Vec<u8> = Vec::new();
        let mut i: usize = 0;
        assert(offset + size <= self.data.len());
        while i < size
            invariant
                i <= size,
                offset + size <= self.data@.len() <= usize::MAX,
                r@ == self.data@.subrange(offset as int, offset + i),
            decreases size - i,
        {
            r.push(self.data[offset + i]);
            i += 1;
        }
        r
    }

    /// Writes `bytes` at `offset`, after growing the memory so that it holds them.
    pub fn store_bytes(&mut self, offset: usize, bytes: &[u8])
        requires
            old(self).wf(),
            Self::addressable(offset + bytes@.len()),
        ensures
            final(self).wf(),
            final(self)@ == stored(old(self)@, offset as int, bytes@),
            final(self)@.len() >= old(self)@.len(),
    {
        self.resize(offset + bytes.len());
        proof {
            lemma_grown(old(self)@, offset + bytes@.len());
        }
        let ghost base = self.data@;
        assert(offset + bytes@.len() <= self.data.len());
        let mut i: usize = 0;
        while i < bytes.len()
            invariant
                i <= bytes@.len(),
                offset + bytes@.len() <= base.len() <= usize::MAX,
                self.data@ == written(base, offset as int, bytes@.subrange(0, i as int)),
            decreases bytes@.len() - i,
        {
            self.data[offset + i] = bytes[i];
            i += 1;
            assert(self.data@ =~= written(base, offset as int, bytes@.subrange(0, i as int)));
        }
        assert(bytes@.subrange(0, i as int) =~= bytes@);
    }

    /// Copies `size` bytes from `src` to `dest`, after growing the memory so
    /// that it holds both ranges. The ranges may overlap.
    pub fn copy(&mut self, src: usize, dest: usize, size: usize)
        requires
            old(self).wf(),
            Self::addressable(src + size),
            Self::addressable(dest + size),
        ensures
            final(self).wf(),
            final(self)@ == copied(old(self)@, src as int, dest as int, size as int),
            final(self)@.len() >= old(self)@.len(),
    {
        let larger = if src >= dest {
            src
        } else {
            dest
        };
        self.resize(larger + size);
        proof {
            lemma_grown(old(self)@, larger + size);
        }
        let ghost base = self.data@;
        assert(larger + size <= self.data.len());
        let mut temp: Vec<u8> = Vec::new();
        let mut i: usize = 0;
        while i < size
            invariant
                i <= size,
                self.data@ == base,
                src + size <= base.len() <= usize::MAX,
                temp@ == base.subrange(src as int, src + i),
            decreases size - i,
        {
            temp.push(self.data[src + i]);
            i += 1;
        }
        let mut j: usize = 0;
        while j < size
            invariant
                j <= size,
                temp@.len() == size,
                dest + size <= base.len() <= usize::MAX,
                self.data@ == written(base, dest as int, temp@.subrange(0, j as int)),
            decreases size - j,
        {
            self.data[dest + j] = temp[j];
            j += 1;
            assert(self.data@ =~= written(base, dest as int, temp@.subrange(0, j as int)));
        }
        assert(temp@.subrange(0, j as int) =~= temp@);
    }
}

} // verus!
