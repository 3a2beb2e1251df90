//! The call stack: a fixed array of return addresses and a depth that never
//! exceeds its capacity.

use crate::machine::STACK_CAPACITY;
use vstd::prelude::*;

verus! {

/// The return addresses of the calls in progress.
pub struct CallStack {
    frames: [u16; 16],
    depth: usize,
}

impl CallStack {
    #[verifier::type_invariant]
    pub closed spec fn inv(self) -> bool {
        self.depth <= STACK_CAPACITY
    }

    /// The addresses held, oldest first.
    pub closed spec fn view(&self) -> Seq<u16> {
        self.frames@.take(self.depth as int)
    }

    /// A stack that keeps its invariant holds no more than its capacity.
    pub proof fn lemma_bounded(self)
        requires
            self.inv(),
        ensures
            self@.len() <= STACK_CAPACITY,
    {
    }

    /// An empty stack.
    pub fn new() -> (stack: CallStack)
        ensures
            stack@ == Seq::<u16>::empty(),
    {
        CallStack { frames: [0; 16], depth: 0 }
    }

    /// The number of addresses held, which never exceeds the capacity.
    pub fn depth(&self) -> (depth: usize)
        ensures
            depth == self@.len(),
            depth <= STACK_CAPACITY,
    {
        proof {
            use_type_invariant(self);
        }
        self.depth
    }

    /// Puts `addr` on top, unless the stack is full.
    pub fn push(&mut self, addr: u16) -> (pushed: bool)
        ensures
            pushed == (old(self)@.len() < STACK_CAPACITY),
            final(self)@ == if pushed {
                old(self)@.push(addr)
            } else {
                old(self)@
            },
    {
        proof {
            use_type_invariant(&*self);
        }
        if self.depth < STACK_CAPACITY {
            self.frames[self.depth] = addr;
            self.depth = self.depth + 1;
            assert(self@ =~= old(self)@.push(addr));
            true
        } else {
            false
        }
    }

    /// Takes the top address off, if there is one.
    pub fn pop(&mut self) -> (top: Option<u16>)
        ensures
            top is Some == (old(self)@.len() > 0),
            top matches Some(addr) ==> addr == old(self)@.last(),
            final(self)@ == if top is Some {
                old(self)@.drop_last()
            } else {
                old(self)@
            },
    {
        proof {
            use_type_invariant(&*self);
        }
        if self.depth > 0 {
            self.depth = self.depth - 1;
            assert(self@ =~= old(self)@.drop_last());
            Some(self.frames[self.depth])
        } else {
            None
        }
    }
}

} // verus!
