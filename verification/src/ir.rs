//! The term and goal model: structural type terms, lifetimes, domain
//! goals, compound goals, program clauses, and the environment of
//! currently-assumed clauses.
//!
//! Bound variables use de Bruijn style coordinates `(depth, index)`:
//! `depth` counts the binders between the variable and the binder that
//! introduces it, and `index` picks a slot inside that binder.  Inference
//! variables and skolems (universal placeholders) are free: an inference
//! variable is a table index, a skolem carries the universe that
//! introduced it.

use vstd::prelude::*;
use crate::list::List;

verus! {

/// Kind of a quantified parameter: a type or a lifetime.
#[derive(Clone, Copy, PartialEq, Eq, Structural, Debug)]
pub enum ParamKind {
    Ty,
    Lifetime,
}

#[derive(Clone, Copy, PartialEq, Eq, Structural, Debug)]
pub enum QuantifierKind {
    ForAll,
    Exists,
}

/// A structural type term.
pub enum Ty {
    /// A named constructor applied to parameters.
    App { ctor: u64, args: Box<List<Param>> },
    /// An associated-type projection, kept rigid by unification.
    Proj { assoc: u64, args: Box<List<Param>> },
    /// An inference variable owned by one inference table.
    Var(u64),
    /// A universal placeholder; the number is the universe that made it.
    Skolem(u64),
    /// A variable bound by an enclosing quantifier or clause.
    Bound(u64, u64),
}

/// A lifetime term.
pub enum Lifetime {
    Var(u64),
    Skolem(u64),
    Bound(u64, u64),
}

/// A term: either a type or a lifetime.
pub enum Param {
    Ty(Ty),
    Lt(Lifetime),
}

/// An atomic goal.
pub enum DomainGoal {
    /// `self_ty` implements the capability `trait_id` at `args`.
    Implemented { self_ty: Ty, trait_id: u64, args: List<Param> },
    /// The projection `assoc` applied to `args` normalizes to `output`.
    Normalize { assoc: u64, args: List<Param>, output: Ty },
    /// The type is well formed under the program's rules.
    WellFormed(Ty),
    /// The capability `trait_id` is in scope.
    InScope(u64),
    /// The two terms are equal.
    Equals(Param, Param),
}

/// A goal in the solver's logic.
pub enum Goal {
    Leaf(DomainGoal),
    And(Box<Goal>, Box<Goal>),
    Or(Box<Goal>, Box<Goal>),
    /// Hypothetical reasoning: assume the clauses, then prove the goal.
    Implies(Box<List<Clause>>, Box<Goal>),
    /// Negation as failure.
    Not(Box<Goal>),
    Quantified(QuantifierKind, List<ParamKind>, Box<Goal>),
}

/// A program clause `forall<binders> head :- body`.
pub struct Clause {
    pub binders: List<ParamKind>,
    pub head: DomainGoal,
    pub body: List<Goal>,
}

/// The closed fact base of a solving session.
pub struct Program {
    pub clauses: List<Clause>,
    /// Capabilities with coinductive (auto or marker style) semantics.
    pub coinductive: List<u64>,
}

/// The ordered set of currently-assumed clauses plus the universe index.
pub struct Environment {
    pub clauses: List<Clause>,
    pub universe: u64,
}

impl Goal {
    /// The number of goal nodes, ignoring the terms at the leaves.
    /// Instantiating a binder rewrites terms only, so it keeps this size.
    pub open spec fn size(&self) -> nat
        decreases self,
    {
        match self {
            Goal::Leaf(_) => 1,
            Goal::And(a, b) => 1 + a.size() + b.size(),
            Goal::Or(a, b) => 1 + a.size() + b.size(),
            Goal::Implies(_, g) => 1 + g.size(),
            Goal::Not(g) => 1 + g.size(),
            Goal::Quantified(_, _, g) => 1 + g.size(),
        }
    }
}

/// The combined node count of a list of goals.
pub open spec fn goal_list_size(l: &List<Goal>) -> nat
    decreases l,
{
    match l {
        List::Nil => 0,
        List::Cons(g, rest) => 1 + g.size() + goal_list_size(rest),
    }
}

// Structural equality, decided executably.

pub fn ty_eq(a: &Ty, b: &Ty) -> (r: bool)
    ensures
        r == (a == b),
    decreases a,
{
    match (a, b) {
        (Ty::App { ctor: c1, args: a1 }, Ty::App { ctor: c2, args: a2 }) => {
            *c1 == *c2 && params_eq(a1, a2)
        },
        (Ty::Proj { assoc: p1, args: a1 }, Ty::Proj { assoc: p2, args: a2 }) => {
            *p1 == *p2 && params_eq(a1, a2)
        },
        (Ty::Var(v1), Ty::Var(v2)) => *v1 == *v2,
        (Ty::Skolem(u1), Ty::Skolem(u2)) => *u1 == *u2,
        (Ty::Bound(d1, i1), Ty::Bound(d2, i2)) => *d1 == *d2 && *i1 == *i2,
        _ => false,
    }
}

pub fn lt_eq(a: &Lifetime, b: &Lifetime) -> (r: bool)
    ensures
        r == (a == b),
{
    match (a, b) {
        (Lifetime::Var(v1), Lifetime::Var(v2)) => *v1 == *v2,
        (Lifetime::Skolem(u1), Lifetime::Skolem(u2)) => *u1 == *u2,
        (Lifetime::Bound(d1, i1), Lifetime::Bound(d2, i2)) => *d1 == *d2 && *i1 == *i2,
        _ => false,
    }
}

pub fn param_eq(a: &Param, b: &Param) -> (r: bool)
    ensures
        r == (a == b),
    decreases a,
{
    match (a, b) {
        (Param::Ty(t1), Param::Ty(t2)) => ty_eq(t1, t2),
        (Param::Lt(l1), Param::Lt(l2)) => lt_eq(l1, l2),
        _ => false,
    }
}

pub fn params_eq(a: &List<Param>, b: &List<Param>) -> (r: bool)
    ensures
        r == (a == b),
    decreases a,
{
    match (a, b) {
        (List::Nil, List::Nil) => true,
        (List::Cons(x, xs), List::Cons(y, ys)) => param_eq(x, y) && params_eq(xs, ys),
        _ => false,
    }
}

pub fn kinds_eq(a: &List<ParamKind>, b: &List<ParamKind>) -> (r: bool)
    ensures
        r == (a == b),
    decreases a,
{
    match (a, b) {
        (List::Nil, List::Nil) => true,
        (List::Cons(x, xs), List::Cons(y, ys)) => *x == *y && kinds_eq(xs, ys),
        _ => false,
    }
}

pub fn domain_eq(a: &DomainGoal, b: &DomainGoal) -> (r: bool)
    ensures
        r == (a == b),
    decreases a,
{
    match (a, b) {
        (
            DomainGoal::Implemented { self_ty: t1, trait_id: id1, args: a1 },
            DomainGoal::Implemented { self_ty: t2, trait_id: id2, args: a2 },
        ) => *id1 == *id2 && ty_eq(t1, t2) && params_eq(a1, a2),
        (
            DomainGoal::Normalize { assoc: p1, args: a1, output: o1 },
            DomainGoal::Normalize { assoc: p2, args: a2, output: o2 },
        ) => *p1 == *p2 && params_eq(a1, a2) && ty_eq(o1, o2),
        (DomainGoal::WellFormed(t1), DomainGoal::WellFormed(t2)) => ty_eq(t1, t2),
        (DomainGoal::InScope(id1), DomainGoal::InScope(id2)) => *id1 == *id2,
        (DomainGoal::Equals(x1, y1), DomainGoal::Equals(x2, y2)) => {
            param_eq(x1, x2) && param_eq(y1, y2)
        },
        _ => false,
    }
}

pub fn goal_eq(a: &Goal, b: &Goal) -> (r: bool)
    ensures
        r == (a == b),
    decreases a,
{
    match (a, b) {
        (Goal::Leaf(d1), Goal::Leaf(d2)) => domain_eq(d1, d2),
        (Goal::And(x1, y1), Goal::And(x2, y2)) => goal_eq(x1, x2) && goal_eq(y1, y2),
        (Goal::Or(x1, y1), Goal::Or(x2, y2)) => goal_eq(x1, x2) && goal_eq(y1, y2),
        (Goal::Implies(h1, g1), Goal::Implies(h2, g2)) => {
            clauses_eq(h1, h2) && goal_eq(g1, g2)
        },
        (Goal::Not(g1), Goal::Not(g2)) => goal_eq(g1, g2),
        (Goal::Quantified(q1, k1, g1), Goal::Quantified(q2, k2, g2)) => {
            *q1 == *q2 && kinds_eq(k1, k2) && goal_eq(g1, g2)
        },
        _ => false,
    }
}

pub fn goals_eq(a: &List<Goal>, b: &List<Goal>) -> (r: bool)
    ensures
        r == (a == b),
    decreases a,
{
    match (a, b) {
        (List::Nil, List::Nil) => true,
        (List::Cons(x, xs), List::Cons(y, ys)) => goal_eq(x, y) && goals_eq(xs, ys),
        _ => false,
    }
}

pub fn clause_eq(a: &Clause, b: &Clause) -> (r: bool)
    ensures
        r == (a == b),
    decreases a,
{
    kinds_eq(&a.binders, &b.binders) && domain_eq(&a.head, &b.head) && goals_eq(
        &a.body,
        &b.body,
    )
}

pub fn clauses_eq(a: &List<Clause>, b: &List<Clause>) -> (r: bool)
    ensures
        r == (a == b),
    decreases a,
{
    match (a, b) {
        (List::Nil, List::Nil) => true,
        (List::Cons(x, xs), List::Cons(y, ys)) => clause_eq(x, y) && clauses_eq(xs, ys),
        _ => false,
    }
}

// Deep copies, with the copy pinned to the original.

pub fn clone_ty(a: &Ty) -> (r: Ty)
    ensures
        r == *a,
    decreases a,
{
    match a {
        Ty::App { ctor, args } => Ty::App { ctor: *ctor, args: Box::new(clone_params(args)) },
        Ty::Proj { assoc, args } => Ty::Proj { assoc: *assoc, args: Box::new(clone_params(args)) },
        Ty::Var(v) => Ty::Var(*v),
        Ty::Skolem(u) => Ty::Skolem(*u),
        Ty::Bound(d, i) => Ty::Bound(*d, *i),
    }
}

pub fn clone_lt(a: &Lifetime) -> (r: Lifetime)
    ensures
        r == *a,
{
    match a {
        Lifetime::Var(v) => Lifetime::Var(*v),
        Lifetime::Skolem(u) => Lifetime::Skolem(*u),
        Lifetime::Bound(d, i) => Lifetime::Bound(*d, *i),
    }
}

pub fn clone_param(a: &Param) -> (r: Param)
    ensures
        r == *a,
    decreases a,
{
    match a {
        Param::Ty(t) => Param::Ty(clone_ty(t)),
        Param::Lt(l) => Param::Lt(clone_lt(l)),
    }
}

pub fn clone_params(a: &List<Param>) -> (r: List<Param>)
    ensures
        r == *a,
    decreases a,
{
    match a {
        List::Nil => List::Nil,
        List::Cons(x, xs) => List::Cons(clone_param(x), Box::new(clone_params(xs))),
    }
}

pub fn clone_kinds(a: &List<ParamKind>) -> (r: List<ParamKind>)
    ensures
        r == *a,
    decreases a,
{
    match a {
        List::Nil => List::Nil,
        List::Cons(x, xs) => List::Cons(*x, Box::new(clone_kinds(xs))),
    }
}

pub fn clone_domain(a: &DomainGoal) -> (r: DomainGoal)
    ensures
        r == *a,
    decreases a,
{
    match a {
        DomainGoal::Implemented { self_ty, trait_id, args } => DomainGoal::Implemented {
            self_ty: clone_ty(self_ty),
            trait_id: *trait_id,
            args: clone_params(args),
        },
        DomainGoal::Normalize { assoc, args, output } => DomainGoal::Normalize {
            assoc: *assoc,
            args: clone_params(args),
            output: clone_ty(output),
        },
        DomainGoal::WellFormed(t) => DomainGoal::WellFormed(clone_ty(t)),
        DomainGoal::InScope(id) => DomainGoal::InScope(*id),
        DomainGoal::Equals(x, y) => DomainGoal::Equals(clone_param(x), clone_param(y)),
    }
}

pub fn clone_goal(a: &Goal) -> (r: Goal)
    ensures
        r == *a,
    decreases a,
{
    match a {
        Goal::Leaf(d) => Goal::Leaf(clone_domain(d)),
        Goal::And(x, y) => Goal::And(Box::new(clone_goal(x)), Box::new(clone_goal(y))),
        Goal::Or(x, y) => Goal::Or(Box::new(clone_goal(x)), Box::new(clone_goal(y))),
        Goal::Implies(h, g) => Goal::Implies(Box::new(clone_clauses(h)), Box::new(clone_goal(g))),
        Goal::Not(g) => Goal::Not(Box::new(clone_goal(g))),
        Goal::Quantified(q, k, g) => Goal::Quantified(*q, clone_kinds(k), Box::new(clone_goal(g))),
    }
}

pub fn clone_goals(a: &List<Goal>) -> (r: List<Goal>)
    ensures
        r == *a,
    decreases a,
{
    match a {
        List::Nil => List::Nil,
        List::Cons(x, xs) => List::Cons(clone_goal(x), Box::new(clone_goals(xs))),
    }
}

pub fn clone_clause(a: &Clause) -> (r: Clause)
    ensures
        r == *a,
    decreases a,
{
    Clause {
        binders: clone_kinds(&a.binders),
        head: clone_domain(&a.head),
        body: clone_goals(&a.body),
    }
}

pub fn clone_clauses(a: &List<Clause>) -> (r: List<Clause>)
    ensures
        r == *a,
    decreases a,
{
    match a {
        List::Nil => List::Nil,
        List::Cons(x, xs) => List::Cons(clone_clause(x), Box::new(clone_clauses(xs))),
    }
}

} // verus!
