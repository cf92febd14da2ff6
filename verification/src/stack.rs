//! The operand stack: at most 1024 words, the last pushed on top.

use crate::constants::STACK_LIMIT;
use crate::errors::VMError;
use crate::primitives::U256;
use vstd::prelude::*;

verus! {

/// What pushing `value` on `stack` gives: the longer stack, or the overflow.
pub open spec fn spec_push(stack: Seq<U256>, value: U256) -> Result<Seq<U256>, VMError> {
    if stack.len() >= STACK_LIMIT {
        Err(VMError::StackOverflow)
    } else {
        Ok(stack.push(value))
    }
}

/// What popping `stack` gives: the shorter stack and its former top, or the underflow.
pub open spec fn spec_pop(stack: Seq<U256>) -> Result<(Seq<U256>, U256), VMError> {
    if stack.len() == 0 {
        Err(VMError::StackUnderflow)
    } else {
        Ok((stack.drop_last(), stack.last()))
    }
}

/// The word `depth` places below the top of `stack`, or the underflow where
/// the stack does not reach that deep.
pub open spec fn spec_peek(stack: Seq<U256>, depth: int) -> Result<U256, VMError> {
    if 0 <= depth < stack.len() {
        Ok(stack[stack.len() - 1 - depth])
    } else {
        Err(VMError::StackUnderflow)
    }
}

/// A push that succeeds, followed by a pop, gives back the value and the stack.
pub proof fn lemma_push_then_pop(stack: Seq<U256>, value: U256)
    requires
        stack.len() < STACK_LIMIT,
    ensures
        spec_push(stack, value) is Ok,
        spec_pop(spec_push(stack, value)->Ok_0) == Ok::<_, VMError>((stack, value)),
{
    assert(stack.push(value).drop_last() =~= stack);
}

/// A full stack takes no push, and an empty one gives no pop.
pub proof fn lemma_stack_limits(stack: Seq<U256>, value: U256)
    ensures
        stack.len() >= STACK_LIMIT ==> spec_push(stack, value) == Err::<Seq<U256>, _>(
            VMError::StackOverflow,
        ),
        stack.len() == 0 ==> spec_pop(stack) == Err::<(Seq<U256>, U256), _>(
            VMError::StackUnderflow,
        ),
{
}

pub struct Stack {
    stack: Vec<U256>,
}

impl View for Stack {
    type V = Seq<U256>;

    closed spec fn view(&self) -> Seq<U256> {
        self.stack@
    }
}

impl Stack {
    /// The stack holds no more than its limit.
    pub open spec fn wf(&self) -> bool {
        self@.len() <= STACK_LIMIT
    }

    pub fn new() -> (r: Stack)
        ensures
            r.wf(),
            r@ == Seq::<U256>::empty(),
    {
        Stack { stack: Vec::new() }
    }

    /// Whether the stack is well formed.
    pub fn is_well_formed(&self) -> (r: bool)
        ensures
            r == self.wf(),
    {
        self.stack.len() <= STACK_LIMIT
    }

    pub fn len(&self) -> (r: usize)
        ensures
            r == self@.len(),
    {
        self.stack.len()
    }

    pub fn is_empty(&self) -> (r: bool)
        ensures
            r == (self@.len() == 0),
    {
        self.stack.len() == 0
    }

    /// The word `depth` places below the top, which stays where it is.
    pub fn peek(&self, depth: usize) -> (r: Result<U256, VMError>)
        ensures
            r == spec_peek(self@, depth as int),
    {
        let len = self.stack.len();
        if depth < len {
            Ok(self.stack[len - 1 - depth])
        } else {
            Err(VMError::StackUnderflow)
        }
    }

    /// Puts `value` on top, unless the stack is full.
    pub fn push(&mut self, value: U256) -> (r: Result<(), VMError>)
        requires
            old(self).wf(),
        ensures
            final(self).wf(),
            match spec_push(old(self)@, value) {
                Ok(stack) => r is Ok && final(self)@ == stack,
                Err(e) => r == Err::<(), _>(e) && final(self)@ == old(self)@,
            },
    {
        if self.stack.len() >= STACK_LIMIT {
            return Err(VMError::StackOverflow);
        }
        self.stack.push(value);
        Ok(())
    }

    /// Takes the top off, unless the stack is empty.
    pub fn pop(&mut self) -> (r: Result<U256, VMError>)
        requires
            old(self).wf(),
        ensures
            final(self).wf(),
            match spec_pop(old(self)@) {
                Ok((stack, top)) => r == Ok::<_, VMError>(top) && final(self)@ == stack,
                Err(e) => r == Err::<U256, _>(e) && final(self)@ == old(self)@,
            },
    {
        match self.stack.pop() {
            Some(value) => Ok(value),
            None => Err(VMError::StackUnderflow),
        }
    }
}

} // verus!
