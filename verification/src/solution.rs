//! Solutions: the answer shape that a solving call reports.

use vstd::prelude::*;
use crate::list::List;
use crate::ir::{Lifetime, Param, ParamKind, lt_eq, params_eq, clone_params, clone_lt};

verus! {

/// Whether a proof was forced at every choice point (`Yes`) or had to be
/// guessed at least once (`Maybe`).
#[derive(Clone, Copy, PartialEq, Eq, Structural, Debug)]
pub enum Successful {
    Yes,
    Maybe,
}

impl Successful {
    /// Conjunction: definite only when both sides are definite.
    pub fn and(self, s: Successful) -> (r: Successful)
        ensures
            r == (if self is Yes && s is Yes {
                Successful::Yes
            } else {
                Successful::Maybe
            }),
    {
        match (self, s) {
            (Successful::Yes, Successful::Yes) => Successful::Yes,
            _ => Successful::Maybe,
        }
    }

    /// Disjunction: definite when either side is definite.
    pub fn or(self, s: Successful) -> (r: Successful)
        ensures
            r == (if self is Yes || s is Yes {
                Successful::Yes
            } else {
                Successful::Maybe
            }),
    {
        match (self, s) {
            (Successful::Maybe, Successful::Maybe) => Successful::Maybe,
            _ => Successful::Yes,
        }
    }
}

/// A residual obligation that two lifetimes be equal, to be checked by an
/// external region checker.
pub struct LifetimeEq {
    pub a: Lifetime,
    pub b: Lifetime,
}

/// A value together with its residual lifetime-equality obligations.
pub struct Constrained<T> {
    pub value: T,
    pub constraints: List<LifetimeEq>,
}

impl<T> Constrained<T> {
    pub fn map<H, OP: FnOnce(T) -> H>(self, op: OP) -> (r: Constrained<H>)
        requires
            op.requires((self.value,)),
        ensures
            op.ensures((self.value,), r.value),
            r.constraints == self.constraints,
    {
        let Constrained { value, constraints } = self;
        Constrained { value: op(value), constraints }
    }
}

/// A binder of a canonical form: its kind and the universe it lives in.
#[derive(Clone, Copy, PartialEq, Eq, Structural, Debug)]
pub struct CanonicalBinder {
    pub kind: ParamKind,
    pub universe: u64,
}

/// A value quantified over canonical variables `?0 .. ?n-1`.
pub struct Quantified<T> {
    pub binders: List<CanonicalBinder>,
    pub value: T,
}

impl<T> Quantified<T> {
    pub fn map<H, OP: FnOnce(T) -> H>(self, op: OP) -> (r: Quantified<H>)
        requires
            op.requires((self.value,)),
        ensures
            op.ensures((self.value,), r.value),
            r.binders == self.binders,
    {
        let Quantified { binders, value } = self;
        Quantified { binders, value: op(value) }
    }
}

/// A substitution: position `i` gives the term bound to canonical
/// variable `?i`.
pub type Substitution = List<Param>;

/// A successful answer: definite or ambiguous, with the refined goal it
/// stands for.
pub struct Solution<G> {
    pub successful: Successful,
    pub refined_goal: Quantified<Constrained<G>>,
}

impl<G> Solution<G> {
    pub fn map<H, OP: FnOnce(G) -> H>(self, op: OP) -> (r: Solution<H>)
        requires
            op.requires((self.refined_goal.value.value,)),
        ensures
            op.ensures((self.refined_goal.value.value,), r.refined_goal.value.value),
            r.successful == self.successful,
            r.refined_goal.binders == self.refined_goal.binders,
            r.refined_goal.value.constraints == self.refined_goal.value.constraints,
    {
        let Solution { successful, refined_goal } = self;
        let Quantified { binders, value } = refined_goal;
        let Constrained { value, constraints } = value;
        Solution {
            successful,
            refined_goal: Quantified {
                binders,
                value: Constrained { value: op(value), constraints },
            },
        }
    }
}

/// The fatal condition: the recursion-depth ceiling was exceeded.
#[derive(Clone, Copy, PartialEq, Eq, Structural, Debug)]
pub struct Overflow;

pub fn constraint_eq(a: &LifetimeEq, b: &LifetimeEq) -> (r: bool)
    ensures
        r == (a == b),
{
    lt_eq(&a.a, &b.a) && lt_eq(&a.b, &b.b)
}

pub fn constraints_eq(a: &List<LifetimeEq>, b: &List<LifetimeEq>) -> (r: bool)
    ensures
        r == (a == b),
    decreases a,
{
    match (a, b) {
        (List::Nil, List::Nil) => true,
        (List::Cons(x, xs), List::Cons(y, ys)) => constraint_eq(x, y) && constraints_eq(xs, ys),
        _ => false,
    }
}

pub fn binders_eq(a: &List<CanonicalBinder>, b: &List<CanonicalBinder>) -> (r: bool)
    ensures
        r == (a == b),
    decreases a,
{
    match (a, b) {
        (List::Nil, List::Nil) => true,
        (List::Cons(x, xs), List::Cons(y, ys)) => *x == *y && binders_eq(xs, ys),
        _ => false,
    }
}

pub fn solution_eq(a: &Solution<Substitution>, b: &Solution<Substitution>) -> (r: bool)
    ensures
        r == (a == b),
{
    let se = a.successful == b.successful;
    se && binders_eq(&a.refined_goal.binders, &b.refined_goal.binders) && params_eq(
        &a.refined_goal.value.value,
        &b.refined_goal.value.value,
    ) && constraints_eq(&a.refined_goal.value.constraints, &b.refined_goal.value.constraints)
}

pub fn clone_constraint(a: &LifetimeEq) -> (r: LifetimeEq)
    ensures
        r == *a,
{
    LifetimeEq { a: clone_lt(&a.a), b: clone_lt(&a.b) }
}

pub fn clone_constraints(a: &List<LifetimeEq>) -> (r: List<LifetimeEq>)
    ensures
        r == *a,
    decreases a,
{
    match a {
        List::Nil => List::Nil,
        List::Cons(x, xs) => List::Cons(clone_constraint(x), Box::new(clone_constraints(xs))),
    }
}

pub fn clone_binders(a: &List<CanonicalBinder>) -> (r: List<CanonicalBinder>)
    ensures
        r == *a,
    decreases a,
{
    match a {
        List::Nil => List::Nil,
        List::Cons(x, xs) => List::Cons(*x, Box::new(clone_binders(xs))),
    }
}

pub fn clone_solution(a: &Solution<Substitution>) -> (r: Solution<Substitution>)
    ensures
        r == *a,
{
    Solution {
        successful: a.successful,
        refined_goal: Quantified {
            binders: clone_binders(&a.refined_goal.binders),
            value: Constrained {
                value: clone_params(&a.refined_goal.value.value),
                constraints: clone_constraints(&a.refined_goal.value.constraints),
            },
        },
    }
}

} // verus!
