//! The machine's operand stack: a bounded vector of 256-bit words.

use vstd::prelude::*;

use crate::types::{ExitError, U256};

verus! {

/// The stack after trying to pop `n` words: everything is consumed when
/// fewer than `n` are there.
pub open spec fn popn(s: Seq<U256>, n: int) -> Seq<U256> {
    if s.len() >= n {
        s.take(s.len() - n)
    } else {
        Seq::empty()
    }
}

/// The `i`-th word popped (0 is the top of the stack).
pub open spec fn popv(s: Seq<U256>, i: int) -> U256 {
    s[s.len() - 1 - i]
}

/// The operand stack. Its view is the sequence of words from bottom to
/// top, so the top of the stack is the last element of the view.
pub struct Stack {
    pub data: Vec<U256>,
    pub limit: usize,
}

impl View for Stack {
    type V = Seq<U256>;

    open spec fn view(&self) -> Seq<U256> {
        self.data@
    }
}

impl Stack {
    /// The depth never exceeds the configured limit.
    pub open spec fn wf(&self) -> bool {
        self.data@.len() <= self.limit
    }

    pub fn new(limit: usize) -> (r: Stack)
        ensures
            r@ == Seq::<U256>::empty(),
            r.limit == limit,
            r.wf(),
    {
        Stack { data: Vec::new(), limit }
    }

    pub fn len(&self) -> (r: usize)
        ensures
            r == self@.len(),
    {
        self.data.len()
    }

    /// Push a word; refused with `StackOverflow` when the stack is full,
    /// leaving the stack unchanged.
    pub fn push(&mut self, value: U256) -> (r: Result<(), ExitError>)
        ensures
            final(self).limit == old(self).limit,
            final(self).wf() == old(self).wf(),
            old(self)@.len() >= old(self).limit ==> r == Err::<(), ExitError>(
                ExitError::StackOverflow,
            ) && final(self)@ == old(self)@,
            old(self)@.len() < old(self).limit ==> r == Ok::<(), ExitError>(()) && final(self)@
                == old(self)@.push(value),
    {
        if self.data.len() >= self.limit {
            Err(ExitError::StackOverflow)
        } else {
            self.data.push(value);
            Ok(())
        }
    }

    /// Pop the top word; refused with `StackUnderflow` on an empty stack.
    pub fn pop(&mut self) -> (r: Result<U256, ExitError>)
        ensures
            final(self).limit == old(self).limit,
            old(self).wf() ==> final(self).wf(),
            old(self)@.len() == 0 ==> r == Err::<U256, ExitError>(ExitError::StackUnderflow)
                && final(self)@ == old(self)@,
            old(self)@.len() > 0 ==> r == Ok::<U256, ExitError>(old(self)@.last())
                && final(self)@ == old(self)@.drop_last(),
    {
        match self.data.pop() {
            Some(v) => Ok(v),
            None => Err(ExitError::StackUnderflow),
        }
    }

    /// Read the word `no_from_top` places below the top without popping.
    pub fn peek(&self, no_from_top: usize) -> (r: Result<U256, ExitError>)
        ensures
            no_from_top < self@.len() ==> r == Ok::<U256, ExitError>(
                self@[self@.len() - 1 - no_from_top],
            ),
            no_from_top >= self@.len() ==> r == Err::<U256, ExitError>(ExitError::StackUnderflow),
    {
        if no_from_top < self.data.len() {
            Ok(self.data[self.data.len() - 1 - no_from_top])
        } else {
            Err(ExitError::StackUnderflow)
        }
    }
}

} // verus!
