//! A simple cons list.  Every recursive structure of the solver is built
//! from it, so that structural recursion and termination arguments stay
//! uniform.

use vstd::prelude::*;

verus! {

pub enum List<T> {
    Nil,
    Cons(T, Box<List<T>>),
}

impl<T> List<T> {
    pub open spec fn len(&self) -> nat
        decreases self,
    {
        match self {
            List::Nil => 0,
            List::Cons(_, rest) => 1 + rest.len(),
        }
    }

    /// The element at position `i`, counted from the head.
    pub open spec fn index(&self, i: nat) -> T
        recommends
            i < self.len(),
        decreases self,
    {
        match self {
            List::Nil => arbitrary(),
            List::Cons(head, rest) => if i == 0 {
                *head
            } else {
                rest.index((i - 1) as nat)
            },
        }
    }

    pub open spec fn contains(&self, x: T) -> bool
        decreases self,
    {
        match self {
            List::Nil => false,
            List::Cons(head, rest) => *head == x || rest.contains(x),
        }
    }
}

} // verus!
