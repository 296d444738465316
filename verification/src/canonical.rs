//! Canonical forms.
//!
//! Before a goal enters the cycle stack or an answer table, its free
//! inference variables are renamed to `?0, ?1, ...` in order of first
//! occurrence and the universes in it are collapsed to a dense range, so
//! that two alpha-equivalent subproblems get the same key.  An answer is
//! canonicalized the same way over the variables left unresolved in it.

use vstd::prelude::*;
use crate::list::List;
use crate::ir::{
    Clause, DomainGoal, Environment, Goal, Lifetime, Param, ParamKind, Ty, clone_kinds,
    clone_param,
};
use crate::solution::{CanonicalBinder, Constrained, LifetimeEq, Quantified, Solution, Substitution, Successful};
use crate::infer::{
    InferenceTable, VarInfo, table_lookup, lookup_var, spec_resolve_ty, spec_resolve_lt,
    spec_resolve_param, spec_resolve_params, resolve_ty, resolve_lt, resolve_param,
    resolve_params,
};

verus! {

// Small helpers on lists of numbers.

pub open spec fn spec_contains_u64(l: &List<u64>, x: u64) -> bool
    decreases l,
{
    match l {
        List::Nil => false,
        List::Cons(y, rest) => *y == x || spec_contains_u64(rest, x),
    }
}

pub fn contains_u64(l: &List<u64>, x: u64) -> (r: bool)
    ensures
        r == spec_contains_u64(l, x),
    decreases l,
{
    match l {
        List::Nil => false,
        List::Cons(y, rest) => *y == x || contains_u64(rest, x),
    }
}

/// The position of `x`, saturating; positions beyond `u64::MAX` collapse.
pub open spec fn spec_index_of(l: &List<u64>, x: u64) -> u64
    decreases l,
{
    match l {
        List::Nil => 0,
        List::Cons(y, rest) => if *y == x {
            0
        } else {
            let i = spec_index_of(rest, x);
            if i == u64::MAX {
                u64::MAX
            } else {
                (i + 1) as u64
            }
        },
    }
}

pub fn index_of(l: &List<u64>, x: u64) -> (r: u64)
    ensures
        r == spec_index_of(l, x),
    decreases l,
{
    match l {
        List::Nil => 0,
        List::Cons(y, rest) => if *y == x {
            0
        } else {
            let i = index_of(rest, x);
            if i == u64::MAX {
                u64::MAX
            } else {
                i + 1
            }
        },
    }
}

/// The element at position `i`, with 0 for a position out of range.
pub open spec fn spec_nth_u64(l: &List<u64>, i: u64) -> u64
    decreases l,
{
    match l {
        List::Nil => 0,
        List::Cons(y, rest) => if i == 0 {
            *y
        } else {
            spec_nth_u64(rest, (i - 1) as u64)
        },
    }
}

pub fn nth_u64(l: &List<u64>, i: u64) -> (r: u64)
    ensures
        r == spec_nth_u64(l, i),
    decreases l,
{
    match l {
        List::Nil => 0,
        List::Cons(y, rest) => if i == 0 {
            *y
        } else {
            nth_u64(rest, i - 1)
        },
    }
}

pub open spec fn spec_append_u64(l: &List<u64>, x: u64) -> List<u64>
    decreases l,
{
    match l {
        List::Nil => List::Cons(x, Box::new(List::Nil)),
        List::Cons(y, rest) => List::Cons(*y, Box::new(spec_append_u64(rest, x))),
    }
}

pub fn append_u64(l: &List<u64>, x: u64) -> (r: List<u64>)
    ensures
        r == spec_append_u64(l, x),
    decreases l,
{
    match l {
        List::Nil => List::Cons(x, Box::new(List::Nil)),
        List::Cons(y, rest) => List::Cons(*y, Box::new(append_u64(rest, x))),
    }
}

/// Insert into an ascending list, keeping elements unique.
pub open spec fn spec_insert_sorted(l: &List<u64>, x: u64) -> List<u64>
    decreases l,
{
    match l {
        List::Nil => List::Cons(x, Box::new(List::Nil)),
        List::Cons(y, rest) => if x == *y {
            List::Cons(*y, Box::new(*(*rest)))
        } else if x < *y {
            List::Cons(x, Box::new(List::Cons(*y, Box::new(*(*rest)))))
        } else {
            List::Cons(*y, Box::new(spec_insert_sorted(rest, x)))
        },
    }
}

pub fn clone_u64s(l: &List<u64>) -> (r: List<u64>)
    ensures
        r == *l,
    decreases l,
{
    match l {
        List::Nil => List::Nil,
        List::Cons(y, rest) => List::Cons(*y, Box::new(clone_u64s(rest))),
    }
}

pub fn insert_sorted(l: &List<u64>, x: u64) -> (r: List<u64>)
    ensures
        r == spec_insert_sorted(l, x),
    decreases l,
{
    match l {
        List::Nil => List::Cons(x, Box::new(List::Nil)),
        List::Cons(y, rest) => if x == *y {
            List::Cons(*y, Box::new(clone_u64s(rest)))
        } else if x < *y {
            List::Cons(x, Box::new(List::Cons(*y, Box::new(clone_u64s(rest)))))
        } else {
            List::Cons(*y, Box::new(insert_sorted(rest, x)))
        },
    }
}

/// The element at a position, if any.
pub open spec fn spec_nth_param(l: &List<Param>, i: u64) -> Option<Param>
    decreases l,
{
    match l {
        List::Nil => None,
        List::Cons(p, rest) => if i == 0 {
            Some(*p)
        } else {
            spec_nth_param(rest, (i - 1) as u64)
        },
    }
}

pub fn nth_param(l: &List<Param>, i: u64) -> (r: Option<Param>)
    ensures
        r == spec_nth_param(l, i),
    decreases l,
{
    match l {
        List::Nil => None,
        List::Cons(p, rest) => if i == 0 {
            Some(clone_param(p))
        } else {
            nth_param(rest, i - 1)
        },
    }
}

// Resolution lifted from terms to goals and clauses.

pub open spec fn spec_resolve_domain(vars: &List<VarInfo>, d: &DomainGoal) -> DomainGoal
    decreases d,
{
    match d {
        DomainGoal::Implemented { self_ty, trait_id, args } => DomainGoal::Implemented {
            self_ty: spec_resolve_ty(vars, self_ty),
            trait_id: *trait_id,
            args: spec_resolve_params(vars, args),
        },
        DomainGoal::Normalize { assoc, args, output } => DomainGoal::Normalize {
            assoc: *assoc,
            args: spec_resolve_params(vars, args),
            output: spec_resolve_ty(vars, output),
        },
        DomainGoal::WellFormed(t) => DomainGoal::WellFormed(spec_resolve_ty(vars, t)),
        DomainGoal::InScope(id) => DomainGoal::InScope(*id),
        DomainGoal::Equals(x, y) => DomainGoal::Equals(
            spec_resolve_param(vars, x),
            spec_resolve_param(vars, y),
        ),
    }
}

pub open spec fn spec_resolve_goal(vars: &List<VarInfo>, g: &Goal) -> Goal
    decreases g,
{
    match g {
        Goal::Leaf(d) => Goal::Leaf(spec_resolve_domain(vars, d)),
        Goal::And(x, y) => Goal::And(
            Box::new(spec_resolve_goal(vars, x)),
            Box::new(spec_resolve_goal(vars, y)),
        ),
        Goal::Or(x, y) => Goal::Or(
            Box::new(spec_resolve_goal(vars, x)),
            Box::new(spec_resolve_goal(vars, y)),
        ),
        Goal::Implies(h, g2) => Goal::Implies(
            Box::new(spec_resolve_clauses(vars, h)),
            Box::new(spec_resolve_goal(vars, g2)),
        ),
        Goal::Not(g2) => Goal::Not(Box::new(spec_resolve_goal(vars, g2))),
        Goal::Quantified(q, k, g2) => Goal::Quantified(
            *q,
            *k,
            Box::new(spec_resolve_goal(vars, g2)),
        ),
    }
}

pub open spec fn spec_resolve_goals(vars: &List<VarInfo>, l: &List<Goal>) -> List<Goal>
    decreases l,
{
    match l {
        List::Nil => List::Nil,
        List::Cons(g, rest) => List::Cons(
            spec_resolve_goal(vars, g),
            Box::new(spec_resolve_goals(vars, rest)),
        ),
    }
}

pub open spec fn spec_resolve_clause(vars: &List<VarInfo>, c: &Clause) -> Clause
    decreases c,
{
    Clause {
        binders: c.binders,
        head: spec_resolve_domain(vars, &c.head),
        body: spec_resolve_goals(vars, &c.body),
    }
}

pub open spec fn spec_resolve_clauses(vars: &List<VarInfo>, l: &List<Clause>) -> List<Clause>
    decreases l,
{
    match l {
        List::Nil => List::Nil,
        List::Cons(c, rest) => List::Cons(
            spec_resolve_clause(vars, c),
            Box::new(spec_resolve_clauses(vars, rest)),
        ),
    }
}

pub fn resolve_domain(table: &InferenceTable, d: &DomainGoal) -> (r: DomainGoal)
    ensures
        r == spec_resolve_domain(&table.vars, d),
    decreases d,
{
    match d {
        DomainGoal::Implemented { self_ty, trait_id, args } => DomainGoal::Implemented {
            self_ty: resolve_ty(table, self_ty),
            trait_id: *trait_id,
            args: resolve_params(table, args),
        },
        DomainGoal::Normalize { assoc, args, output } => DomainGoal::Normalize {
            assoc: *assoc,
            args: resolve_params(table, args),
            output: resolve_ty(table, output),
        },
        DomainGoal::WellFormed(t) => DomainGoal::WellFormed(resolve_ty(table, t)),
        DomainGoal::InScope(id) => DomainGoal::InScope(*id),
        DomainGoal::Equals(x, y) => DomainGoal::Equals(
            resolve_param(table, x),
            resolve_param(table, y),
        ),
    }
}

pub fn resolve_goal(table: &InferenceTable, g: &Goal) -> (r: Goal)
    ensures
        r == spec_resolve_goal(&table.vars, g),
    decreases g,
{
    match g {
        Goal::Leaf(d) => Goal::Leaf(resolve_domain(table, d)),
        Goal::And(x, y) => Goal::And(
            Box::new(resolve_goal(table, x)),
            Box::new(resolve_goal(table, y)),
        ),
        Goal::Or(x, y) => Goal::Or(
            Box::new(resolve_goal(table, x)),
            Box::new(resolve_goal(table, y)),
        ),
        Goal::Implies(h, g2) => Goal::Implies(
            Box::new(resolve_clauses(table, h)),
            Box::new(resolve_goal(table, g2)),
        ),
        Goal::Not(g2) => Goal::Not(Box::new(resolve_goal(table, g2))),
        Goal::Quantified(q, k, g2) => Goal::Quantified(
            *q,
            clone_kinds(k),
            Box::new(resolve_goal(table, g2)),
        ),
    }
}

pub fn resolve_goals(table: &InferenceTable, l: &List<Goal>) -> (r: List<Goal>)
    ensures
        r == spec_resolve_goals(&table.vars, l),
    decreases l,
{
    match l {
        List::Nil => List::Nil,
        List::Cons(g, rest) => List::Cons(
            resolve_goal(table, g),
            Box::new(resolve_goals(table, rest)),
        ),
    }
}

pub fn resolve_clause(table: &InferenceTable, c: &Clause) -> (r: Clause)
    ensures
        r == spec_resolve_clause(&table.vars, c),
    decreases c,
{
    Clause {
        binders: clone_kinds(&c.binders),
        head: resolve_domain(table, &c.head),
        body: resolve_goals(table, &c.body),
    }
}

pub fn resolve_clauses(table: &InferenceTable, l: &List<Clause>) -> (r: List<Clause>)
    ensures
        r == spec_resolve_clauses(&table.vars, l),
    decreases l,
{
    match l {
        List::Nil => List::Nil,
        List::Cons(c, rest) => List::Cons(
            resolve_clause(table, c),
            Box::new(resolve_clauses(table, rest)),
        ),
    }
}

// Instantiation: open the binder at `depth`, replacing its bound variables
// with the given terms.  Quantifiers and clause binders raise the depth.

pub open spec fn bump(depth: u64) -> u64 {
    if depth == u64::MAX {
        u64::MAX
    } else {
        (depth + 1) as u64
    }
}

pub open spec fn spec_inst_ty(t: &Ty, depth: u64, args: &List<Param>) -> Ty
    decreases t,
{
    match t {
        Ty::App { ctor, args: a } => Ty::App {
            ctor: *ctor,
            args: Box::new(spec_inst_params(a, depth, args)),
        },
        Ty::Proj { assoc, args: a } => Ty::Proj {
            assoc: *assoc,
            args: Box::new(spec_inst_params(a, depth, args)),
        },
        Ty::Var(v) => Ty::Var(*v),
        Ty::Skolem(u) => Ty::Skolem(*u),
        Ty::Bound(d, i) => if *d == depth {
            match spec_nth_param(args, *i) {
                Some(Param::Ty(t2)) => t2,
                _ => Ty::Bound(*d, *i),
            }
        } else {
            Ty::Bound(*d, *i)
        },
    }
}

pub open spec fn spec_inst_lt(l: &Lifetime, depth: u64, args: &List<Param>) -> Lifetime {
    match l {
        Lifetime::Var(v) => Lifetime::Var(*v),
        Lifetime::Skolem(u) => Lifetime::Skolem(*u),
        Lifetime::Bound(d, i) => if *d == depth {
            match spec_nth_param(args, *i) {
                Some(Param::Lt(l2)) => l2,
                _ => Lifetime::Bound(*d, *i),
            }
        } else {
            Lifetime::Bound(*d, *i)
        },
    }
}

pub open spec fn spec_inst_param(p: &Param, depth: u64, args: &List<Param>) -> Param
    decreases p,
{
    match p {
        Param::Ty(t) => Param::Ty(spec_inst_ty(t, depth, args)),
        Param::Lt(l) => Param::Lt(spec_inst_lt(l, depth, args)),
    }
}

pub open spec fn spec_inst_params(l: &List<Param>, depth: u64, args: &List<Param>) -> List<Param>
    decreases l,
{
    match l {
        List::Nil => List::Nil,
        List::Cons(p, rest) => List::Cons(
            spec_inst_param(p, depth, args),
            Box::new(spec_inst_params(rest, depth, args)),
        ),
    }
}

pub open spec fn spec_inst_domain(d: &DomainGoal, depth: u64, args: &List<Param>) -> DomainGoal
    decreases d,
{
    match d {
        DomainGoal::Implemented { self_ty, trait_id, args: a } => DomainGoal::Implemented {
            self_ty: spec_inst_ty(self_ty, depth, args),
            trait_id: *trait_id,
            args: spec_inst_params(a, depth, args),
        },
        DomainGoal::Normalize { assoc, args: a, output } => DomainGoal::Normalize {
            assoc: *assoc,
            args: spec_inst_params(a, depth, args),
            output: spec_inst_ty(output, depth, args),
        },
        DomainGoal::WellFormed(t) => DomainGoal::WellFormed(spec_inst_ty(t, depth, args)),
        DomainGoal::InScope(id) => DomainGoal::InScope(*id),
        DomainGoal::Equals(x, y) => DomainGoal::Equals(
            spec_inst_param(x, depth, args),
            spec_inst_param(y, depth, args),
        ),
    }
}

pub open spec fn spec_inst_goal(g: &Goal, depth: u64, args: &List<Param>) -> Goal
    decreases g,
{
    match g {
        Goal::Leaf(d) => Goal::Leaf(spec_inst_domain(d, depth, args)),
        Goal::And(x, y) => Goal::And(
            Box::new(spec_inst_goal(x, depth, args)),
            Box::new(spec_inst_goal(y, depth, args)),
        ),
        Goal::Or(x, y) => Goal::Or(
            Box::new(spec_inst_goal(x, depth, args)),
            Box::new(spec_inst_goal(y, depth, args)),
        ),
        Goal::Implies(h, g2) => Goal::Implies(
            Box::new(spec_inst_clauses(h, depth, args)),
            Box::new(spec_inst_goal(g2, depth, args)),
        ),
        Goal::Not(g2) => Goal::Not(Box::new(spec_inst_goal(g2, depth, args))),
        Goal::Quantified(q, k, g2) => Goal::Quantified(
            *q,
            *k,
            Box::new(spec_inst_goal(g2, bump(depth), args)),
        ),
    }
}

pub open spec fn spec_inst_goals(l: &List<Goal>, depth: u64, args: &List<Param>) -> List<Goal>
    decreases l,
{
    match l {
        List::Nil => List::Nil,
        List::Cons(g, rest) => List::Cons(
            spec_inst_goal(g, depth, args),
            Box::new(spec_inst_goals(rest, depth, args)),
        ),
    }
}

pub open spec fn spec_inst_clause(c: &Clause, depth: u64, args: &List<Param>) -> Clause
    decreases c,
{
    Clause {
        binders: c.binders,
        head: spec_inst_domain(&c.head, bump(depth), args),
        body: spec_inst_goals(&c.body, bump(depth), args),
    }
}

pub open spec fn spec_inst_clauses(l: &List<Clause>, depth: u64, args: &List<Param>) -> List<
    Clause,
>
    decreases l,
{
    match l {
        List::Nil => List::Nil,
        List::Cons(c, rest) => List::Cons(
            spec_inst_clause(c, depth, args),
            Box::new(spec_inst_clauses(rest, depth, args)),
        ),
    }
}

/// Opening a binder rewrites terms only: the goal keeps its node count.
pub proof fn lemma_inst_goal_size(g: &Goal, depth: u64, args: &List<Param>)
    ensures
        spec_inst_goal(g, depth, args).size() == g.size(),
    decreases g,
{
    match g {
        Goal::Leaf(_) => {},
        Goal::And(x, y) => {
            lemma_inst_goal_size(x, depth, args);
            lemma_inst_goal_size(y, depth, args);
        },
        Goal::Or(x, y) => {
            lemma_inst_goal_size(x, depth, args);
            lemma_inst_goal_size(y, depth, args);
        },
        Goal::Implies(_, g2) => lemma_inst_goal_size(g2, depth, args),
        Goal::Not(g2) => lemma_inst_goal_size(g2, depth, args),
        Goal::Quantified(_, _, g2) => lemma_inst_goal_size(g2, bump(depth), args),
    }
}

pub fn inst_ty(t: &Ty, depth: u64, args: &List<Param>) -> (r: Ty)
    ensures
        r == spec_inst_ty(t, depth, args),
    decreases t,
{
    match t {
        Ty::App { ctor, args: a } => Ty::App {
            ctor: *ctor,
            args: Box::new(inst_params(a, depth, args)),
        },
        Ty::Proj { assoc, args: a } => Ty::Proj {
            assoc: *assoc,
            args: Box::new(inst_params(a, depth, args)),
        },
        Ty::Var(v) => Ty::Var(*v),
        Ty::Skolem(u) => Ty::Skolem(*u),
        Ty::Bound(d, i) => if *d == depth {
            match nth_param(args, *i) {
                Some(Param::Ty(t2)) => t2,
                _ => Ty::Bound(*d, *i),
            }
        } else {
            Ty::Bound(*d, *i)
        },
    }
}

pub fn inst_lt(l: &Lifetime, depth: u64, args: &List<Param>) -> (r: Lifetime)
    ensures
        r == spec_inst_lt(l, depth, args),
{
    match l {
        Lifetime::Var(v) => Lifetime::Var(*v),
        Lifetime::Skolem(u) => Lifetime::Skolem(*u),
        Lifetime::Bound(d, i) => if *d == depth {
            match nth_param(args, *i) {
                Some(Param::Lt(l2)) => l2,
                _ => Lifetime::Bound(*d, *i),
            }
        } else {
            Lifetime::Bound(*d, *i)
        },
    }
}

pub fn inst_param(p: &Param, depth: u64, args: &List<Param>) -> (r: Param)
    ensures
        r == spec_inst_param(p, depth, args),
    decreases p,
{
    match p {
        Param::Ty(t) => Param::Ty(inst_ty(t, depth, args)),
        Param::Lt(l) => Param::Lt(inst_lt(l, depth, args)),
    }
}

pub fn inst_params(l: &List<Param>, depth: u64, args: &List<Param>) -> (r: List<Param>)
    ensures
        r == spec_inst_params(l, depth, args),
    decreases l,
{
    match l {
        List::Nil => List::Nil,
        List::Cons(p, rest) => List::Cons(
            inst_param(p, depth, args),
            Box::new(inst_params(rest, depth, args)),
        ),
    }
}

fn bump_exec(depth: u64) -> (r: u64)
    ensures
        r == bump(depth),
{
    if depth == u64::MAX {
        u64::MAX
    } else {
        depth + 1
    }
}

pub fn inst_domain(d: &DomainGoal, depth: u64, args: &List<Param>) -> (r: DomainGoal)
    ensures
        r == spec_inst_domain(d, depth, args),
    decreases d,
{
    match d {
        DomainGoal::Implemented { self_ty, trait_id, args: a } => DomainGoal::Implemented {
            self_ty: inst_ty(self_ty, depth, args),
            trait_id: *trait_id,
            args: inst_params(a, depth, args),
        },
        DomainGoal::Normalize { assoc, args: a, output } => DomainGoal::Normalize {
            assoc: *assoc,
            args: inst_params(a, depth, args),
            output: inst_ty(output, depth, args),
        },
        DomainGoal::WellFormed(t) => DomainGoal::WellFormed(inst_ty(t, depth, args)),
        DomainGoal::InScope(id) => DomainGoal::InScope(*id),
        DomainGoal::Equals(x, y) => DomainGoal::Equals(
            inst_param(x, depth, args),
            inst_param(y, depth, args),
        ),
    }
}

pub fn inst_goal(g: &Goal, depth: u64, args: &List<Param>) -> (r: Goal)
    ensures
        r == spec_inst_goal(g, depth, args),
    decreases g,
{
    match g {
        Goal::Leaf(d) => Goal::Leaf(inst_domain(d, depth, args)),
        Goal::And(x, y) => Goal::And(
            Box::new(inst_goal(x, depth, args)),
            Box::new(inst_goal(y, depth, args)),
        ),
        Goal::Or(x, y) => Goal::Or(
            Box::new(inst_goal(x, depth, args)),
            Box::new(inst_goal(y, depth, args)),
        ),
        Goal::Implies(h, g2) => Goal::Implies(
            Box::new(inst_clauses(h, depth, args)),
            Box::new(inst_goal(g2, depth, args)),
        ),
        Goal::Not(g2) => Goal::Not(Box::new(inst_goal(g2, depth, args))),
        Goal::Quantified(q, k, g2) => Goal::Quantified(
            *q,
            clone_kinds(k),
            Box::new(inst_goal(g2, bump_exec(depth), args)),
        ),
    }
}

pub fn inst_goals(l: &List<Goal>, depth: u64, args: &List<Param>) -> (r: List<Goal>)
    ensures
        r == spec_inst_goals(l, depth, args),
    decreases l,
{
    match l {
        List::Nil => List::Nil,
        List::Cons(g, rest) => List::Cons(
            inst_goal(g, depth, args),
            Box::new(inst_goals(rest, depth, args)),
        ),
    }
}

pub fn inst_clause(c: &Clause, depth: u64, args: &List<Param>) -> (r: Clause)
    ensures
        r == spec_inst_clause(c, depth, args),
    decreases c,
{
    Clause {
        binders: clone_kinds(&c.binders),
        head: inst_domain(&c.head, bump_exec(depth), args),
        body: inst_goals(&c.body, bump_exec(depth), args),
    }
}

pub fn inst_clauses(l: &List<Clause>, depth: u64, args: &List<Param>) -> (r: List<Clause>)
    ensures
        r == spec_inst_clauses(l, depth, args),
    decreases l,
{
    match l {
        List::Nil => List::Nil,
        List::Cons(c, rest) => List::Cons(
            inst_clause(c, depth, args),
            Box::new(inst_clauses(rest, depth, args)),
        ),
    }
}

// Free inference variables in a goal, for the groundness test of negation.

pub open spec fn has_vars_ty(t: &Ty) -> bool
    decreases t,
{
    match t {
        Ty::App { ctor: _, args } => has_vars_params(args),
        Ty::Proj { assoc: _, args } => has_vars_params(args),
        Ty::Var(_) => true,
        _ => false,
    }
}

pub open spec fn has_vars_param(p: &Param) -> bool
    decreases p,
{
    match p {
        Param::Ty(t) => has_vars_ty(t),
        Param::Lt(l) => l is Var,
    }
}

pub open spec fn has_vars_params(l: &List<Param>) -> bool
    decreases l,
{
    match l {
        List::Nil => false,
        List::Cons(p, rest) => has_vars_param(p) || has_vars_params(rest),
    }
}

pub open spec fn has_vars_domain(d: &DomainGoal) -> bool
    decreases d,
{
    match d {
        DomainGoal::Implemented { self_ty, trait_id: _, args } => has_vars_ty(self_ty)
            || has_vars_params(args),
        DomainGoal::Normalize { assoc: _, args, output } => has_vars_params(args) || has_vars_ty(
            output,
        ),
        DomainGoal::WellFormed(t) => has_vars_ty(t),
        DomainGoal::InScope(_) => false,
        DomainGoal::Equals(x, y) => has_vars_param(x) || has_vars_param(y),
    }
}

pub open spec fn has_vars_goal(g: &Goal) -> bool
    decreases g,
{
    match g {
        Goal::Leaf(d) => has_vars_domain(d),
        Goal::And(x, y) => has_vars_goal(x) || has_vars_goal(y),
        Goal::Or(x, y) => has_vars_goal(x) || has_vars_goal(y),
        Goal::Implies(h, g2) => has_vars_clauses(h) || has_vars_goal(g2),
        Goal::Not(g2) => has_vars_goal(g2),
        Goal::Quantified(_, _, g2) => has_vars_goal(g2),
    }
}

pub open spec fn has_vars_goals(l: &List<Goal>) -> bool
    decreases l,
{
    match l {
        List::Nil => false,
        List::Cons(g, rest) => has_vars_goal(g) || has_vars_goals(rest),
    }
}

pub open spec fn has_vars_clause(c: &Clause) -> bool
    decreases c,
{
    has_vars_domain(&c.head) || has_vars_goals(&c.body)
}

pub open spec fn has_vars_clauses(l: &List<Clause>) -> bool
    decreases l,
{
    match l {
        List::Nil => false,
        List::Cons(c, rest) => has_vars_clause(c) || has_vars_clauses(rest),
    }
}

pub fn goal_vars_ty(t: &Ty) -> (r: bool)
    ensures
        r == has_vars_ty(t),
    decreases t,
{
    match t {
        Ty::App { ctor: _, args } => goal_vars_params(args),
        Ty::Proj { assoc: _, args } => goal_vars_params(args),
        Ty::Var(_) => true,
        _ => false,
    }
}

pub fn goal_vars_param(p: &Param) -> (r: bool)
    ensures
        r == has_vars_param(p),
    decreases p,
{
    match p {
        Param::Ty(t) => goal_vars_ty(t),
        Param::Lt(l) => matches!(l, Lifetime::Var(_)),
    }
}

pub fn goal_vars_params(l: &List<Param>) -> (r: bool)
    ensures
        r == has_vars_params(l),
    decreases l,
{
    match l {
        List::Nil => false,
        List::Cons(p, rest) => goal_vars_param(p) || goal_vars_params(rest),
    }
}

pub fn goal_vars_domain(d: &DomainGoal) -> (r: bool)
    ensures
        r == has_vars_domain(d),
    decreases d,
{
    match d {
        DomainGoal::Implemented { self_ty, trait_id: _, args } => goal_vars_ty(self_ty)
            || goal_vars_params(args),
        DomainGoal::Normalize { assoc: _, args, output } => goal_vars_params(args) || goal_vars_ty(
            output,
        ),
        DomainGoal::WellFormed(t) => goal_vars_ty(t),
        DomainGoal::InScope(_) => false,
        DomainGoal::Equals(x, y) => goal_vars_param(x) || goal_vars_param(y),
    }
}

pub fn goal_vars(g: &Goal) -> (r: bool)
    ensures
        r == has_vars_goal(g),
    decreases g,
{
    match g {
        Goal::Leaf(d) => goal_vars_domain(d),
        Goal::And(x, y) => goal_vars(x) || goal_vars(y),
        Goal::Or(x, y) => goal_vars(x) || goal_vars(y),
        Goal::Implies(h, g2) => goal_vars_clauses(h) || goal_vars(g2),
        Goal::Not(g2) => goal_vars(g2),
        Goal::Quantified(_, _, g2) => goal_vars(g2),
    }
}

pub fn goal_vars_goals(l: &List<Goal>) -> (r: bool)
    ensures
        r == has_vars_goals(l),
    decreases l,
{
    match l {
        List::Nil => false,
        List::Cons(g, rest) => goal_vars(g) || goal_vars_goals(rest),
    }
}

pub fn goal_vars_clause(c: &Clause) -> (r: bool)
    ensures
        r == has_vars_clause(c),
    decreases c,
{
    goal_vars_domain(&c.head) || goal_vars_goals(&c.body)
}

pub fn goal_vars_clauses(l: &List<Clause>) -> (r: bool)
    ensures
        r == has_vars_clauses(l),
    decreases l,
{
    match l {
        List::Nil => false,
        List::Cons(c, rest) => goal_vars_clause(c) || goal_vars_clauses(rest),
    }
}

// Collecting the free variables (in order of first occurrence) and the
// universes (sorted, made dense) of a resolved goal.

pub struct CollectAcc {
    pub vars: List<u64>,
    pub univs: List<u64>,
}

pub open spec fn var_universe(vars: &List<VarInfo>, v: u64) -> u64 {
    match table_lookup(vars, v) {
        Some(info) => info.universe,
        None => 0,
    }
}

pub open spec fn spec_see_var(table: &InferenceTable, acc: CollectAcc, v: u64) -> CollectAcc {
    if spec_contains_u64(&acc.vars, v) {
        acc
    } else {
        CollectAcc {
            vars: spec_append_u64(&acc.vars, v),
            univs: spec_insert_sorted(&acc.univs, var_universe(&table.vars, v)),
        }
    }
}

pub open spec fn spec_collect_ty(table: &InferenceTable, t: &Ty, acc: CollectAcc) -> CollectAcc
    decreases t,
{
    match t {
        Ty::App { ctor: _, args } => spec_collect_params(table, args, acc),
        Ty::Proj { assoc: _, args } => spec_collect_params(table, args, acc),
        Ty::Var(v) => spec_see_var(table, acc, *v),
        Ty::Skolem(u) => CollectAcc {
            vars: acc.vars,
            univs: spec_insert_sorted(&acc.univs, *u),
        },
        Ty::Bound(_, _) => acc,
    }
}

pub open spec fn spec_collect_lt(table: &InferenceTable, l: &Lifetime, acc: CollectAcc) -> CollectAcc {
    match l {
        Lifetime::Var(v) => spec_see_var(table, acc, *v),
        Lifetime::Skolem(u) => CollectAcc {
            vars: acc.vars,
            univs: spec_insert_sorted(&acc.univs, *u),
        },
        Lifetime::Bound(_, _) => acc,
    }
}

pub open spec fn spec_collect_param(table: &InferenceTable, p: &Param, acc: CollectAcc) -> CollectAcc
    decreases p,
{
    match p {
        Param::Ty(t) => spec_collect_ty(table, t, acc),
        Param::Lt(l) => spec_collect_lt(table, l, acc),
    }
}

pub open spec fn spec_collect_params(table: &InferenceTable, l: &List<Param>, acc: CollectAcc) -> CollectAcc
    decreases l,
{
    match l {
        List::Nil => acc,
        List::Cons(p, rest) => spec_collect_params(table, rest, spec_collect_param(table, p, acc)),
    }
}

pub open spec fn spec_collect_domain(table: &InferenceTable, d: &DomainGoal, acc: CollectAcc) -> CollectAcc
    decreases d,
{
    match d {
        DomainGoal::Implemented { self_ty, trait_id: _, args } => spec_collect_params(
            table,
            args,
            spec_collect_ty(table, self_ty, acc),
        ),
        DomainGoal::Normalize { assoc: _, args, output } => spec_collect_ty(
            table,
            output,
            spec_collect_params(table, args, acc),
        ),
        DomainGoal::WellFormed(t) => spec_collect_ty(table, t, acc),
        DomainGoal::InScope(_) => acc,
        DomainGoal::Equals(x, y) => spec_collect_param(
            table,
            y,
            spec_collect_param(table, x, acc),
        ),
    }
}

pub open spec fn spec_collect_goal(table: &InferenceTable, g: &Goal, acc: CollectAcc) -> CollectAcc
    decreases g,
{
    match g {
        Goal::Leaf(d) => spec_collect_domain(table, d, acc),
        Goal::And(x, y) => spec_collect_goal(table, y, spec_collect_goal(table, x, acc)),
        Goal::Or(x, y) => spec_collect_goal(table, y, spec_collect_goal(table, x, acc)),
        Goal::Implies(h, g2) => spec_collect_goal(table, g2, spec_collect_clauses(table, h, acc)),
        Goal::Not(g2) => spec_collect_goal(table, g2, acc),
        Goal::Quantified(_, _, g2) => spec_collect_goal(table, g2, acc),
    }
}

pub open spec fn spec_collect_goals(table: &InferenceTable, l: &List<Goal>, acc: CollectAcc) -> CollectAcc
    decreases l,
{
    match l {
        List::Nil => acc,
        List::Cons(g, rest) => spec_collect_goals(table, rest, spec_collect_goal(table, g, acc)),
    }
}

pub open spec fn spec_collect_clause(table: &InferenceTable, c: &Clause, acc: CollectAcc) -> CollectAcc
    decreases c,
{
    spec_collect_goals(table, &c.body, spec_collect_domain(table, &c.head, acc))
}

pub open spec fn spec_collect_clauses(table: &InferenceTable, l: &List<Clause>, acc: CollectAcc) -> CollectAcc
    decreases l,
{
    match l {
        List::Nil => acc,
        List::Cons(c, rest) => spec_collect_clauses(
            table,
            rest,
            spec_collect_clause(table, c, acc),
        ),
    }
}

fn see_var(table: &InferenceTable, acc: CollectAcc, v: u64) -> (r: CollectAcc)
    ensures
        r == spec_see_var(table, acc, v),
{
    if contains_u64(&acc.vars, v) {
        acc
    } else {
        let uni = match lookup_var(table, v) {
            Some(info) => info.universe,
            None => 0,
        };
        CollectAcc {
            vars: append_u64(&acc.vars, v),
            univs: insert_sorted(&acc.univs, uni),
        }
    }
}

fn collect_ty(table: &InferenceTable, t: &Ty, acc: CollectAcc) -> (r: CollectAcc)
    ensures
        r == spec_collect_ty(table, t, acc),
    decreases t,
{
    match t {
        Ty::App { ctor: _, args } => collect_params(table, args, acc),
        Ty::Proj { assoc: _, args } => collect_params(table, args, acc),
        Ty::Var(v) => see_var(table, acc, *v),
        Ty::Skolem(u) => CollectAcc {
            vars: acc.vars,
            univs: insert_sorted(&acc.univs, *u),
        },
        Ty::Bound(_, _) => acc,
    }
}

fn collect_lt(table: &InferenceTable, l: &Lifetime, acc: CollectAcc) -> (r: CollectAcc)
    ensures
        r == spec_collect_lt(table, l, acc),
{
    match l {
        Lifetime::Var(v) => see_var(table, acc, *v),
        Lifetime::Skolem(u) => CollectAcc {
            vars: acc.vars,
            univs: insert_sorted(&acc.univs, *u),
        },
        Lifetime::Bound(_, _) => acc,
    }
}

fn collect_param(table: &InferenceTable, p: &Param, acc: CollectAcc) -> (r: CollectAcc)
    ensures
        r == spec_collect_param(table, p, acc),
    decreases p,
{
    match p {
        Param::Ty(t) => collect_ty(table, t, acc),
        Param::Lt(l) => collect_lt(table, l, acc),
    }
}

fn collect_params(table: &InferenceTable, l: &List<Param>, acc: CollectAcc) -> (r: CollectAcc)
    ensures
        r == spec_collect_params(table, l, acc),
    decreases l,
{
    match l {
        List::Nil => acc,
        List::Cons(p, rest) => {
            let acc1 = collect_param(table, p, acc);
            collect_params(table, rest, acc1)
        },
    }
}

fn collect_domain(table: &InferenceTable, d: &DomainGoal, acc: CollectAcc) -> (r: CollectAcc)
    ensures
        r == spec_collect_domain(table, d, acc),
    decreases d,
{
    match d {
        DomainGoal::Implemented { self_ty, trait_id: _, args } => {
            let acc1 = collect_ty(table, self_ty, acc);
            collect_params(table, args, acc1)
        },
        DomainGoal::Normalize { assoc: _, args, output } => {
            let acc1 = collect_params(table, args, acc);
            collect_ty(table, output, acc1)
        },
        DomainGoal::WellFormed(t) => collect_ty(table, t, acc),
        DomainGoal::InScope(_) => acc,
        DomainGoal::Equals(x, y) => {
            let acc1 = collect_param(table, x, acc);
            collect_param(table, y, acc1)
        },
    }
}

fn collect_goal(table: &InferenceTable, g: &Goal, acc: CollectAcc) -> (r: CollectAcc)
    ensures
        r == spec_collect_goal(table, g, acc),
    decreases g,
{
    match g {
        Goal::Leaf(d) => collect_domain(table, d, acc),
        Goal::And(x, y) => {
            let acc1 = collect_goal(table, x, acc);
            collect_goal(table, y, acc1)
        },
        Goal::Or(x, y) => {
            let acc1 = collect_goal(table, x, acc);
            collect_goal(table, y, acc1)
        },
        Goal::Implies(h, g2) => {
            let acc1 = collect_clauses(table, h, acc);
            collect_goal(table, g2, acc1)
        },
        Goal::Not(g2) => collect_goal(table, g2, acc),
        Goal::Quantified(_, _, g2) => collect_goal(table, g2, acc),
    }
}

fn collect_goals(table: &InferenceTable, l: &List<Goal>, acc: CollectAcc) -> (r: CollectAcc)
    ensures
        r == spec_collect_goals(table, l, acc),
    decreases l,
{
    match l {
        List::Nil => acc,
        List::Cons(g, rest) => {
            let acc1 = collect_goal(table, g, acc);
            collect_goals(table, rest, acc1)
        },
    }
}

fn collect_clause(table: &InferenceTable, c: &Clause, acc: CollectAcc) -> (r: CollectAcc)
    ensures
        r == spec_collect_clause(table, c, acc),
    decreases c,
{
    let acc1 = collect_domain(table, &c.head, acc);
    collect_goals(table, &c.body, acc1)
}

fn collect_clauses(table: &InferenceTable, l: &List<Clause>, acc: CollectAcc) -> (r: CollectAcc)
    ensures
        r == spec_collect_clauses(table, l, acc),
    decreases l,
{
    match l {
        List::Nil => acc,
        List::Cons(c, rest) => {
            let acc1 = collect_clause(table, c, acc);
            collect_clauses(table, rest, acc1)
        },
    }
}

// The canonical rewrite: variables become their position in `vmap`,
// skolem universes become their position in `umap`.

pub open spec fn spec_canon_ty(t: &Ty, vmap: &List<u64>, umap: &List<u64>) -> Ty
    decreases t,
{
    match t {
        Ty::App { ctor, args } => Ty::App {
            ctor: *ctor,
            args: Box::new(spec_canon_params(args, vmap, umap)),
        },
        Ty::Proj { assoc, args } => Ty::Proj {
            assoc: *assoc,
            args: Box::new(spec_canon_params(args, vmap, umap)),
        },
        Ty::Var(v) => Ty::Var(spec_index_of(vmap, *v)),
        Ty::Skolem(u) => Ty::Skolem(spec_index_of(umap, *u)),
        Ty::Bound(d, i) => Ty::Bound(*d, *i),
    }
}

pub open spec fn spec_canon_lt(l: &Lifetime, vmap: &List<u64>, umap: &List<u64>) -> Lifetime {
    match l {
        Lifetime::Var(v) => Lifetime::Var(spec_index_of(vmap, *v)),
        Lifetime::Skolem(u) => Lifetime::Skolem(spec_index_of(umap, *u)),
        Lifetime::Bound(d, i) => Lifetime::Bound(*d, *i),
    }
}

pub open spec fn spec_canon_param(p: &Param, vmap: &List<u64>, umap: &List<u64>) -> Param
    decreases p,
{
    match p {
        Param::Ty(t) => Param::Ty(spec_canon_ty(t, vmap, umap)),
        Param::Lt(l) => Param::Lt(spec_canon_lt(l, vmap, umap)),
    }
}

pub open spec fn spec_canon_params(l: &List<Param>, vmap: &List<u64>, umap: &List<u64>) -> List<
    Param,
>
    decreases l,
{
    match l {
        List::Nil => List::Nil,
        List::Cons(p, rest) => List::Cons(
            spec_canon_param(p, vmap, umap),
            Box::new(spec_canon_params(rest, vmap, umap)),
        ),
    }
}

pub open spec fn spec_canon_domain(d: &DomainGoal, vmap: &List<u64>, umap: &List<u64>) -> DomainGoal
    decreases d,
{
    match d {
        DomainGoal::Implemented { self_ty, trait_id, args } => DomainGoal::Implemented {
            self_ty: spec_canon_ty(self_ty, vmap, umap),
            trait_id: *trait_id,
            args: spec_canon_params(args, vmap, umap),
        },
        DomainGoal::Normalize { assoc, args, output } => DomainGoal::Normalize {
            assoc: *assoc,
            args: spec_canon_params(args, vmap, umap),
            output: spec_canon_ty(output, vmap, umap),
        },
        DomainGoal::WellFormed(t) => DomainGoal::WellFormed(spec_canon_ty(t, vmap, umap)),
        DomainGoal::InScope(id) => DomainGoal::InScope(*id),
        DomainGoal::Equals(x, y) => DomainGoal::Equals(
            spec_canon_param(x, vmap, umap),
            spec_canon_param(y, vmap, umap),
        ),
    }
}

pub open spec fn spec_canon_goal(g: &Goal, vmap: &List<u64>, umap: &List<u64>) -> Goal
    decreases g,
{
    match g {
        Goal::Leaf(d) => Goal::Leaf(spec_canon_domain(d, vmap, umap)),
        Goal::And(x, y) => Goal::And(
            Box::new(spec_canon_goal(x, vmap, umap)),
            Box::new(spec_canon_goal(y, vmap, umap)),
        ),
        Goal::Or(x, y) => Goal::Or(
            Box::new(spec_canon_goal(x, vmap, umap)),
            Box::new(spec_canon_goal(y, vmap, umap)),
        ),
        Goal::Implies(h, g2) => Goal::Implies(
            Box::new(spec_canon_clauses(h, vmap, umap)),
            Box::new(spec_canon_goal(g2, vmap, umap)),
        ),
        Goal::Not(g2) => Goal::Not(Box::new(spec_canon_goal(g2, vmap, umap))),
        Goal::Quantified(q, k, g2) => Goal::Quantified(
            *q,
            *k,
            Box::new(spec_canon_goal(g2, vmap, umap)),
        ),
    }
}

pub open spec fn spec_canon_goals(l: &List<Goal>, vmap: &List<u64>, umap: &List<u64>) -> List<Goal>
    decreases l,
{
    match l {
        List::Nil => List::Nil,
        List::Cons(g, rest) => List::Cons(
            spec_canon_goal(g, vmap, umap),
            Box::new(spec_canon_goals(rest, vmap, umap)),
        ),
    }
}

pub open spec fn spec_canon_clause(c: &Clause, vmap: &List<u64>, umap: &List<u64>) -> Clause
    decreases c,
{
    Clause {
        binders: c.binders,
        head: spec_canon_domain(&c.head, vmap, umap),
        body: spec_canon_goals(&c.body, vmap, umap),
    }
}

pub open spec fn spec_canon_clauses(l: &List<Clause>, vmap: &List<u64>, umap: &List<u64>) -> List<
    Clause,
>
    decreases l,
{
    match l {
        List::Nil => List::Nil,
        List::Cons(c, rest) => List::Cons(
            spec_canon_clause(c, vmap, umap),
            Box::new(spec_canon_clauses(rest, vmap, umap)),
        ),
    }
}

pub fn canon_ty(t: &Ty, vmap: &List<u64>, umap: &List<u64>) -> (r: Ty)
    ensures
        r == spec_canon_ty(t, vmap, umap),
    decreases t,
{
    match t {
        Ty::App { ctor, args } => Ty::App {
            ctor: *ctor,
            args: Box::new(canon_params(args, vmap, umap)),
        },
        Ty::Proj { assoc, args } => Ty::Proj {
            assoc: *assoc,
            args: Box::new(canon_params(args, vmap, umap)),
        },
        Ty::Var(v) => Ty::Var(index_of(vmap, *v)),
        Ty::Skolem(u) => Ty::Skolem(index_of(umap, *u)),
        Ty::Bound(d, i) => Ty::Bound(*d, *i),
    }
}

pub fn canon_lt(l: &Lifetime, vmap: &List<u64>, umap: &List<u64>) -> (r: Lifetime)
    ensures
        r == spec_canon_lt(l, vmap, umap),
{
    match l {
        Lifetime::Var(v) => Lifetime::Var(index_of(vmap, *v)),
        Lifetime::Skolem(u) => Lifetime::Skolem(index_of(umap, *u)),
        Lifetime::Bound(d, i) => Lifetime::Bound(*d, *i),
    }
}

pub fn canon_param(p: &Param, vmap: &List<u64>, umap: &List<u64>) -> (r: Param)
    ensures
        r == spec_canon_param(p, vmap, umap),
    decreases p,
{
    match p {
        Param::Ty(t) => Param::Ty(canon_ty(t, vmap, umap)),
        Param::Lt(l) => Param::Lt(canon_lt(l, vmap, umap)),
    }
}

pub fn canon_params(l: &List<Param>, vmap: &List<u64>, umap: &List<u64>) -> (r: List<Param>)
    ensures
        r == spec_canon_params(l, vmap, umap),
    decreases l,
{
    match l {
        List::Nil => List::Nil,
        List::Cons(p, rest) => List::Cons(
            canon_param(p, vmap, umap),
            Box::new(canon_params(rest, vmap, umap)),
        ),
    }
}

pub fn canon_domain(d: &DomainGoal, vmap: &List<u64>, umap: &List<u64>) -> (r: DomainGoal)
    ensures
        r == spec_canon_domain(d, vmap, umap),
    decreases d,
{
    match d {
        DomainGoal::Implemented { self_ty, trait_id, args } => DomainGoal::Implemented {
            self_ty: canon_ty(self_ty, vmap, umap),
            trait_id: *trait_id,
            args: canon_params(args, vmap, umap),
        },
        DomainGoal::Normalize { assoc, args, output } => DomainGoal::Normalize {
            assoc: *assoc,
            args: canon_params(args, vmap, umap),
            output: canon_ty(output, vmap, umap),
        },
        DomainGoal::WellFormed(t) => DomainGoal::WellFormed(canon_ty(t, vmap, umap)),
        DomainGoal::InScope(id) => DomainGoal::InScope(*id),
        DomainGoal::Equals(x, y) => DomainGoal::Equals(
            canon_param(x, vmap, umap),
            canon_param(y, vmap, umap),
        ),
    }
}

pub fn canon_goal(g: &Goal, vmap: &List<u64>, umap: &List<u64>) -> (r: Goal)
    ensures
        r == spec_canon_goal(g, vmap, umap),
    decreases g,
{
    match g {
        Goal::Leaf(d) => Goal::Leaf(canon_domain(d, vmap, umap)),
        Goal::And(x, y) => Goal::And(
            Box::new(canon_goal(x, vmap, umap)),
            Box::new(canon_goal(y, vmap, umap)),
        ),
        Goal::Or(x, y) => Goal::Or(
            Box::new(canon_goal(x, vmap, umap)),
            Box::new(canon_goal(y, vmap, umap)),
        ),
        Goal::Implies(h, g2) => Goal::Implies(
            Box::new(canon_clauses(h, vmap, umap)),
            Box::new(canon_goal(g2, vmap, umap)),
        ),
        Goal::Not(g2) => Goal::Not(Box::new(canon_goal(g2, vmap, umap))),
        Goal::Quantified(q, k, g2) => Goal::Quantified(
            *q,
            clone_kinds(k),
            Box::new(canon_goal(g2, vmap, umap)),
        ),
    }
}

pub fn canon_goals(l: &List<Goal>, vmap: &List<u64>, umap: &List<u64>) -> (r: List<Goal>)
    ensures
        r == spec_canon_goals(l, vmap, umap),
    decreases l,
{
    match l {
        List::Nil => List::Nil,
        List::Cons(g, rest) => List::Cons(
            canon_goal(g, vmap, umap),
            Box::new(canon_goals(rest, vmap, umap)),
        ),
    }
}

pub fn canon_clause(c: &Clause, vmap: &List<u64>, umap: &List<u64>) -> (r: Clause)
    ensures
        r == spec_canon_clause(c, vmap, umap),
    decreases c,
{
    Clause {
        binders: clone_kinds(&c.binders),
        head: canon_domain(&c.head, vmap, umap),
        body: canon_goals(&c.body, vmap, umap),
    }
}

pub fn canon_clauses(l: &List<Clause>, vmap: &List<u64>, umap: &List<u64>) -> (r: List<Clause>)
    ensures
        r == spec_canon_clauses(l, vmap, umap),
    decreases l,
{
    match l {
        List::Nil => List::Nil,
        List::Cons(c, rest) => List::Cons(
            canon_clause(c, vmap, umap),
            Box::new(canon_clauses(rest, vmap, umap)),
        ),
    }
}

/// A canonicalized subproblem: the binders of its variables, its top
/// universe, the assumed clauses, and the leaf goal, all in dense form.
pub struct CanonicalGoal {
    pub binders: List<CanonicalBinder>,
    pub universe: u64,
    pub clauses: List<Clause>,
    pub goal: DomainGoal,
}

/// A canonical key together with the maps needed to read an answer back:
/// `vmap` sends a canonical position to the original variable, `umap`
/// sends a dense universe to the original one.
pub struct CanonKey {
    pub key: CanonicalGoal,
    pub vmap: List<u64>,
    pub umap: List<u64>,
}

pub fn key_eq(a: &CanonicalGoal, b: &CanonicalGoal) -> (r: bool)
    ensures
        r == (a == b),
{
    crate::solution::binders_eq(&a.binders, &b.binders) && a.universe == b.universe
        && crate::ir::clauses_eq(&a.clauses, &b.clauses) && crate::ir::domain_eq(&a.goal, &b.goal)
}

pub fn clone_key(a: &CanonicalGoal) -> (r: CanonicalGoal)
    ensures
        r == *a,
{
    CanonicalGoal {
        binders: crate::solution::clone_binders(&a.binders),
        universe: a.universe,
        clauses: crate::ir::clone_clauses(&a.clauses),
        goal: crate::ir::clone_domain(&a.goal),
    }
}

/// List length, saturating at the largest machine number.
pub open spec fn spec_len_sat(l: &List<u64>) -> u64
    decreases l,
{
    match l {
        List::Nil => 0,
        List::Cons(_, rest) => {
            let n = spec_len_sat(rest);
            if n == u64::MAX {
                u64::MAX
            } else {
                (n + 1) as u64
            }
        },
    }
}

pub fn len_sat(l: &List<u64>) -> (r: u64)
    ensures
        r == spec_len_sat(l),
    decreases l,
{
    match l {
        List::Nil => 0,
        List::Cons(_, rest) => {
            let n = len_sat(rest);
            if n == u64::MAX {
                u64::MAX
            } else {
                n + 1
            }
        },
    }
}

pub open spec fn spec_build_binders(
    table: &InferenceTable,
    vmap: &List<u64>,
    umap: &List<u64>,
) -> List<CanonicalBinder>
    decreases vmap,
{
    match vmap {
        List::Nil => List::Nil,
        List::Cons(v, rest) => {
            let kind = match table_lookup(&table.vars, *v) {
                Some(info) => info.kind,
                None => ParamKind::Ty,
            };
            List::Cons(
                CanonicalBinder {
                    kind,
                    universe: spec_index_of(umap, var_universe(&table.vars, *v)),
                },
                Box::new(spec_build_binders(table, rest, umap)),
            )
        },
    }
}

pub fn build_binders(table: &InferenceTable, vmap: &List<u64>, umap: &List<u64>) -> (r: List<
    CanonicalBinder,
>)
    ensures
        r == spec_build_binders(table, vmap, umap),
    decreases vmap,
{
    match vmap {
        List::Nil => List::Nil,
        List::Cons(v, rest) => {
            let (kind, uni) = match lookup_var(table, *v) {
                Some(info) => (info.kind, info.universe),
                None => (ParamKind::Ty, 0u64),
            };
            List::Cons(
                CanonicalBinder { kind, universe: index_of(umap, uni) },
                Box::new(build_binders(table, rest, umap)),
            )
        },
    }
}

/// Canonicalize the environment and a leaf goal into a memoization key.
pub open spec fn spec_canonicalize_key(
    table: &InferenceTable,
    env: &Environment,
    leaf: &DomainGoal,
) -> CanonKey {
    let rc = spec_resolve_clauses(&table.vars, &env.clauses);
    let rd = spec_resolve_domain(&table.vars, leaf);
    let acc0 = CollectAcc { vars: List::Nil, univs: spec_insert_sorted(&List::Nil, 0) };
    let acc1 = spec_collect_clauses(table, &rc, acc0);
    let acc2 = spec_collect_domain(table, &rd, acc1);
    let binders = spec_build_binders(table, &acc2.vars, &acc2.univs);
    CanonKey {
        key: CanonicalGoal {
            binders,
            universe: if spec_len_sat(&acc2.univs) == 0 {
                0
            } else {
                (spec_len_sat(&acc2.univs) - 1) as u64
            },
            clauses: spec_canon_clauses(&rc, &acc2.vars, &acc2.univs),
            goal: spec_canon_domain(&rd, &acc2.vars, &acc2.univs),
        },
        vmap: acc2.vars,
        umap: acc2.univs,
    }
}

pub fn canonicalize_key(table: &InferenceTable, env: &Environment, leaf: &DomainGoal) -> (r:
    CanonKey)
    ensures
        r == spec_canonicalize_key(table, env, leaf),
{
    let rc = resolve_clauses(table, &env.clauses);
    let rd = resolve_domain(table, leaf);
    let acc0 = CollectAcc { vars: List::Nil, univs: insert_sorted(&List::Nil, 0) };
    let acc1 = collect_clauses(table, &rc, acc0);
    let acc2 = collect_domain(table, &rd, acc1);
    let binders = build_binders(table, &acc2.vars, &acc2.univs);
    let n = len_sat(&acc2.univs);
    let top = if n == 0 {
        0
    } else {
        n - 1
    };
    CanonKey {
        key: CanonicalGoal {
            binders,
            universe: top,
            clauses: canon_clauses(&rc, &acc2.vars, &acc2.univs),
            goal: canon_domain(&rd, &acc2.vars, &acc2.univs),
        },
        vmap: acc2.vars,
        umap: acc2.univs,
    }
}

// Answer canonicalization: rename the unresolved variables of an answer,
// keeping universes as they are.

pub open spec fn spec_acanon_ty(t: &Ty, vmap: &List<u64>) -> Ty
    decreases t,
{
    match t {
        Ty::App { ctor, args } => Ty::App {
            ctor: *ctor,
            args: Box::new(spec_acanon_params(args, vmap)),
        },
        Ty::Proj { assoc, args } => Ty::Proj {
            assoc: *assoc,
            args: Box::new(spec_acanon_params(args, vmap)),
        },
        Ty::Var(v) => Ty::Var(spec_index_of(vmap, *v)),
        Ty::Skolem(u) => Ty::Skolem(*u),
        Ty::Bound(d, i) => Ty::Bound(*d, *i),
    }
}

pub open spec fn spec_acanon_lt(l: &Lifetime, vmap: &List<u64>) -> Lifetime {
    match l {
        Lifetime::Var(v) => Lifetime::Var(spec_index_of(vmap, *v)),
        Lifetime::Skolem(u) => Lifetime::Skolem(*u),
        Lifetime::Bound(d, i) => Lifetime::Bound(*d, *i),
    }
}

pub open spec fn spec_acanon_param(p: &Param, vmap: &List<u64>) -> Param
    decreases p,
{
    match p {
        Param::Ty(t) => Param::Ty(spec_acanon_ty(t, vmap)),
        Param::Lt(l) => Param::Lt(spec_acanon_lt(l, vmap)),
    }
}

pub open spec fn spec_acanon_params(l: &List<Param>, vmap: &List<u64>) -> List<Param>
    decreases l,
{
    match l {
        List::Nil => List::Nil,
        List::Cons(p, rest) => List::Cons(
            spec_acanon_param(p, vmap),
            Box::new(spec_acanon_params(rest, vmap)),
        ),
    }
}

pub open spec fn spec_acanon_constraints(l: &List<LifetimeEq>, vmap: &List<u64>) -> List<LifetimeEq>
    decreases l,
{
    match l {
        List::Nil => List::Nil,
        List::Cons(c, rest) => List::Cons(
            LifetimeEq { a: spec_acanon_lt(&c.a, vmap), b: spec_acanon_lt(&c.b, vmap) },
            Box::new(spec_acanon_constraints(rest, vmap)),
        ),
    }
}

pub fn acanon_ty(t: &Ty, vmap: &List<u64>) -> (r: Ty)
    ensures
        r == spec_acanon_ty(t, vmap),
    decreases t,
{
    match t {
        Ty::App { ctor, args } => Ty::App {
            ctor: *ctor,
            args: Box::new(acanon_params(args, vmap)),
        },
        Ty::Proj { assoc, args } => Ty::Proj {
            assoc: *assoc,
            args: Box::new(acanon_params(args, vmap)),
        },
        Ty::Var(v) => Ty::Var(index_of(vmap, *v)),
        Ty::Skolem(u) => Ty::Skolem(*u),
        Ty::Bound(d, i) => Ty::Bound(*d, *i),
    }
}

pub fn acanon_lt(l: &Lifetime, vmap: &List<u64>) -> (r: Lifetime)
    ensures
        r == spec_acanon_lt(l, vmap),
{
    match l {
        Lifetime::Var(v) => Lifetime::Var(index_of(vmap, *v)),
        Lifetime::Skolem(u) => Lifetime::Skolem(*u),
        Lifetime::Bound(d, i) => Lifetime::Bound(*d, *i),
    }
}

pub fn acanon_param(p: &Param, vmap: &List<u64>) -> (r: Param)
    ensures
        r == spec_acanon_param(p, vmap),
    decreases p,
{
    match p {
        Param::Ty(t) => Param::Ty(acanon_ty(t, vmap)),
        Param::Lt(l) => Param::Lt(acanon_lt(l, vmap)),
    }
}

pub fn acanon_params(l: &List<Param>, vmap: &List<u64>) -> (r: List<Param>)
    ensures
        r == spec_acanon_params(l, vmap),
    decreases l,
{
    match l {
        List::Nil => List::Nil,
        List::Cons(p, rest) => List::Cons(
            acanon_param(p, vmap),
            Box::new(acanon_params(rest, vmap)),
        ),
    }
}

pub fn acanon_constraints(l: &List<LifetimeEq>, vmap: &List<u64>) -> (r: List<LifetimeEq>)
    ensures
        r == spec_acanon_constraints(l, vmap),
    decreases l,
{
    match l {
        List::Nil => List::Nil,
        List::Cons(c, rest) => List::Cons(
            LifetimeEq { a: acanon_lt(&c.a, vmap), b: acanon_lt(&c.b, vmap) },
            Box::new(acanon_constraints(rest, vmap)),
        ),
    }
}

/// The resolved values of the root variables `from .. n`, in order.
pub open spec fn spec_root_values(table: &InferenceTable, from: u64, n: u64) -> List<Param>
    decreases n - from,
{
    if from >= n {
        List::Nil
    } else {
        let p = match table_lookup(&table.vars, from) {
            Some(info) => if info.kind is Lifetime {
                Param::Lt(spec_resolve_lt(&table.vars, &Lifetime::Var(from)))
            } else {
                Param::Ty(spec_resolve_ty(&table.vars, &Ty::Var(from)))
            },
            None => Param::Ty(Ty::Var(from)),
        };
        List::Cons(p, Box::new(spec_root_values(table, (from + 1) as u64, n)))
    }
}

pub fn root_values(table: &InferenceTable, from: u64, n: u64) -> (r: List<Param>)
    ensures
        r == spec_root_values(table, from, n),
    decreases n - from,
{
    if from >= n {
        List::Nil
    } else {
        let p = match lookup_var(table, from) {
            Some(info) => if matches!(info.kind, ParamKind::Lifetime) {
                Param::Lt(resolve_lt(table, &Lifetime::Var(from)))
            } else {
                Param::Ty(resolve_ty(table, &Ty::Var(from)))
            },
            None => Param::Ty(Ty::Var(from)),
        };
        List::Cons(p, Box::new(root_values(table, from + 1, n)))
    }
}

pub open spec fn spec_resolve_constraints(vars: &List<VarInfo>, l: &List<LifetimeEq>) -> List<
    LifetimeEq,
>
    decreases l,
{
    match l {
        List::Nil => List::Nil,
        List::Cons(c, rest) => List::Cons(
            LifetimeEq { a: spec_resolve_lt(vars, &c.a), b: spec_resolve_lt(vars, &c.b) },
            Box::new(spec_resolve_constraints(vars, rest)),
        ),
    }
}

pub fn resolve_constraints(table: &InferenceTable, l: &List<LifetimeEq>) -> (r: List<LifetimeEq>)
    ensures
        r == spec_resolve_constraints(&table.vars, l),
    decreases l,
{
    match l {
        List::Nil => List::Nil,
        List::Cons(c, rest) => List::Cons(
            LifetimeEq { a: resolve_lt(table, &c.a), b: resolve_lt(table, &c.b) },
            Box::new(resolve_constraints(table, rest)),
        ),
    }
}

pub open spec fn spec_collect_constraints(
    table: &InferenceTable,
    l: &List<LifetimeEq>,
    acc: CollectAcc,
) -> CollectAcc
    decreases l,
{
    match l {
        List::Nil => acc,
        List::Cons(c, rest) => spec_collect_constraints(
            table,
            rest,
            spec_collect_lt(table, &c.b, spec_collect_lt(table, &c.a, acc)),
        ),
    }
}

fn collect_constraints(table: &InferenceTable, l: &List<LifetimeEq>, acc: CollectAcc) -> (r:
    CollectAcc)
    ensures
        r == spec_collect_constraints(table, l, acc),
    decreases l,
{
    match l {
        List::Nil => acc,
        List::Cons(c, rest) => {
            let acc1 = collect_lt(table, &c.a, acc);
            let acc2 = collect_lt(table, &c.b, acc1);
            collect_constraints(table, rest, acc2)
        },
    }
}

pub open spec fn spec_answer_binders(table: &InferenceTable, vmap: &List<u64>) -> List<
    CanonicalBinder,
>
    decreases vmap,
{
    match vmap {
        List::Nil => List::Nil,
        List::Cons(v, rest) => {
            let (kind, uni) = match table_lookup(&table.vars, *v) {
                Some(info) => (info.kind, info.universe),
                None => (ParamKind::Ty, 0u64),
            };
            List::Cons(
                CanonicalBinder { kind, universe: uni },
                Box::new(spec_answer_binders(table, rest)),
            )
        },
    }
}

pub fn answer_binders(table: &InferenceTable, vmap: &List<u64>) -> (r: List<CanonicalBinder>)
    ensures
        r == spec_answer_binders(table, vmap),
    decreases vmap,
{
    match vmap {
        List::Nil => List::Nil,
        List::Cons(v, rest) => {
            let (kind, uni) = match lookup_var(table, *v) {
                Some(info) => (info.kind, info.universe),
                None => (ParamKind::Ty, 0u64),
            };
            List::Cons(
                CanonicalBinder { kind, universe: uni },
                Box::new(answer_binders(table, rest)),
            )
        },
    }
}

/// The canonical answer over the first `n` variables of the store: their
/// resolved values, with the variables still free renamed in order of
/// first occurrence and listed as the answer's binders.
pub open spec fn spec_canonicalize_answer(
    table: &InferenceTable,
    n: u64,
    successful: Successful,
    constraints: &List<LifetimeEq>,
) -> Solution<Substitution> {
    let values = spec_root_values(table, 0, n);
    let rcs = spec_resolve_constraints(&table.vars, constraints);
    let acc0 = CollectAcc { vars: List::Nil, univs: List::Nil };
    let acc1 = spec_collect_params(table, &values, acc0);
    let acc2 = spec_collect_constraints(table, &rcs, acc1);
    Solution {
        successful,
        refined_goal: Quantified {
            binders: spec_answer_binders(table, &acc2.vars),
            value: Constrained {
                value: spec_acanon_params(&values, &acc2.vars),
                constraints: spec_acanon_constraints(&rcs, &acc2.vars),
            },
        },
    }
}

pub fn canonicalize_answer(
    table: &InferenceTable,
    n: u64,
    successful: Successful,
    constraints: &List<LifetimeEq>,
) -> (r: Solution<Substitution>)
    ensures
        r == spec_canonicalize_answer(table, n, successful, constraints),
{
    let values = root_values(table, 0, n);
    let rcs = resolve_constraints(table, constraints);
    let acc0 = CollectAcc { vars: List::Nil, univs: List::Nil };
    let acc1 = collect_params(table, &values, acc0);
    let acc2 = collect_constraints(table, &rcs, acc1);
    Solution {
        successful,
        refined_goal: Quantified {
            binders: answer_binders(table, &acc2.vars),
            value: Constrained {
                value: acanon_params(&values, &acc2.vars),
                constraints: acanon_constraints(&rcs, &acc2.vars),
            },
        },
    }
}

// Reading an answer back into a caller's store: canonical variables become
// the fresh variables made for the answer's binders, dense universes are
// sent through the caller's universe map.

pub open spec fn spec_decol(umap: &List<u64>, c: u64, fb: u64) -> u64 {
    if c < spec_len_sat(umap) {
        spec_nth_u64(umap, c)
    } else {
        fb
    }
}

pub fn decol(umap: &List<u64>, c: u64, fb: u64) -> (r: u64)
    ensures
        r == spec_decol(umap, c, fb),
{
    if c < len_sat(umap) {
        nth_u64(umap, c)
    } else {
        fb
    }
}

pub open spec fn spec_decanon_ty(t: &Ty, fresh: &List<u64>, umap: &List<u64>, fb: u64) -> Ty
    decreases t,
{
    match t {
        Ty::App { ctor, args } => Ty::App {
            ctor: *ctor,
            args: Box::new(spec_decanon_params(args, fresh, umap, fb)),
        },
        Ty::Proj { assoc, args } => Ty::Proj {
            assoc: *assoc,
            args: Box::new(spec_decanon_params(args, fresh, umap, fb)),
        },
        Ty::Var(v) => Ty::Var(spec_nth_u64(fresh, *v)),
        Ty::Skolem(u) => Ty::Skolem(spec_decol(umap, *u, fb)),
        Ty::Bound(d, i) => Ty::Bound(*d, *i),
    }
}

pub open spec fn spec_decanon_lt(l: &Lifetime, fresh: &List<u64>, umap: &List<u64>, fb: u64) -> Lifetime {
    match l {
        Lifetime::Var(v) => Lifetime::Var(spec_nth_u64(fresh, *v)),
        Lifetime::Skolem(u) => Lifetime::Skolem(spec_decol(umap, *u, fb)),
        Lifetime::Bound(d, i) => Lifetime::Bound(*d, *i),
    }
}

pub open spec fn spec_decanon_param(p: &Param, fresh: &List<u64>, umap: &List<u64>, fb: u64) -> Param
    decreases p,
{
    match p {
        Param::Ty(t) => Param::Ty(spec_decanon_ty(t, fresh, umap, fb)),
        Param::Lt(l) => Param::Lt(spec_decanon_lt(l, fresh, umap, fb)),
    }
}

pub open spec fn spec_decanon_params(
    l: &List<Param>,
    fresh: &List<u64>,
    umap: &List<u64>,
    fb: u64,
) -> List<Param>
    decreases l,
{
    match l {
        List::Nil => List::Nil,
        List::Cons(p, rest) => List::Cons(
            spec_decanon_param(p, fresh, umap, fb),
            Box::new(spec_decanon_params(rest, fresh, umap, fb)),
        ),
    }
}

pub open spec fn spec_decanon_constraints(
    l: &List<LifetimeEq>,
    fresh: &List<u64>,
    umap: &List<u64>,
    fb: u64,
) -> List<LifetimeEq>
    decreases l,
{
    match l {
        List::Nil => List::Nil,
        List::Cons(c, rest) => List::Cons(
            LifetimeEq {
                a: spec_decanon_lt(&c.a, fresh, umap, fb),
                b: spec_decanon_lt(&c.b, fresh, umap, fb),
            },
            Box::new(spec_decanon_constraints(rest, fresh, umap, fb)),
        ),
    }
}

pub fn decanon_ty(t: &Ty, fresh: &List<u64>, umap: &List<u64>, fb: u64) -> (r: Ty)
    ensures
        r == spec_decanon_ty(t, fresh, umap, fb),
    decreases t,
{
    match t {
        Ty::App { ctor, args } => Ty::App {
            ctor: *ctor,
            args: Box::new(decanon_params(args, fresh, umap, fb)),
        },
        Ty::Proj { assoc, args } => Ty::Proj {
            assoc: *assoc,
            args: Box::new(decanon_params(args, fresh, umap, fb)),
        },
        Ty::Var(v) => Ty::Var(nth_u64(fresh, *v)),
        Ty::Skolem(u) => Ty::Skolem(decol(umap, *u, fb)),
        Ty::Bound(d, i) => Ty::Bound(*d, *i),
    }
}

pub fn decanon_lt(l: &Lifetime, fresh: &List<u64>, umap: &List<u64>, fb: u64) -> (r: Lifetime)
    ensures
        r == spec_decanon_lt(l, fresh, umap, fb),
{
    match l {
        Lifetime::Var(v) => Lifetime::Var(nth_u64(fresh, *v)),
        Lifetime::Skolem(u) => Lifetime::Skolem(decol(umap, *u, fb)),
        Lifetime::Bound(d, i) => Lifetime::Bound(*d, *i),
    }
}

pub fn decanon_param(p: &Param, fresh: &List<u64>, umap: &List<u64>, fb: u64) -> (r: Param)
    ensures
        r == spec_decanon_param(p, fresh, umap, fb),
    decreases p,
{
    match p {
        Param::Ty(t) => Param::Ty(decanon_ty(t, fresh, umap, fb)),
        Param::Lt(l) => Param::Lt(decanon_lt(l, fresh, umap, fb)),
    }
}

pub fn decanon_params(l: &List<Param>, fresh: &List<u64>, umap: &List<u64>, fb: u64) -> (r: List<
    Param,
>)
    ensures
        r == spec_decanon_params(l, fresh, umap, fb),
    decreases l,
{
    match l {
        List::Nil => List::Nil,
        List::Cons(p, rest) => List::Cons(
            decanon_param(p, fresh, umap, fb),
            Box::new(decanon_params(rest, fresh, umap, fb)),
        ),
    }
}

pub fn decanon_constraints(
    l: &List<LifetimeEq>,
    fresh: &List<u64>,
    umap: &List<u64>,
    fb: u64,
) -> (r: List<LifetimeEq>)
    ensures
        r == spec_decanon_constraints(l, fresh, umap, fb),
    decreases l,
{
    match l {
        List::Nil => List::Nil,
        List::Cons(c, rest) => List::Cons(
            LifetimeEq {
                a: decanon_lt(&c.a, fresh, umap, fb),
                b: decanon_lt(&c.b, fresh, umap, fb),
            },
            Box::new(decanon_constraints(rest, fresh, umap, fb)),
        ),
    }
}

/// Resolution rewrites terms only: the goal keeps its node count.
pub proof fn lemma_resolve_goal_size(vars: &List<VarInfo>, g: &Goal)
    ensures
        spec_resolve_goal(vars, g).size() == g.size(),
    decreases g,
{
    match g {
        Goal::Leaf(_) => {},
        Goal::And(x, y) => {
            lemma_resolve_goal_size(vars, x);
            lemma_resolve_goal_size(vars, y);
        },
        Goal::Or(x, y) => {
            lemma_resolve_goal_size(vars, x);
            lemma_resolve_goal_size(vars, y);
        },
        Goal::Implies(_, g2) => lemma_resolve_goal_size(vars, g2),
        Goal::Not(g2) => lemma_resolve_goal_size(vars, g2),
        Goal::Quantified(_, _, g2) => lemma_resolve_goal_size(vars, g2),
    }
}

// Resolution is the identity on goals that mention no inference variable.

pub proof fn lemma_novars_ty(vars: &List<VarInfo>, t: &Ty)
    requires
        !has_vars_ty(t),
    ensures
        spec_resolve_ty(vars, t) == *t,
    decreases t,
{
    match t {
        Ty::App { ctor: _, args } => lemma_novars_params(vars, args),
        Ty::Proj { assoc: _, args } => lemma_novars_params(vars, args),
        _ => {},
    }
}

pub proof fn lemma_novars_param(vars: &List<VarInfo>, p: &Param)
    requires
        !has_vars_param(p),
    ensures
        spec_resolve_param(vars, p) == *p,
    decreases p,
{
    match p {
        Param::Ty(t) => lemma_novars_ty(vars, t),
        Param::Lt(_) => {},
    }
}

pub proof fn lemma_novars_params(vars: &List<VarInfo>, l: &List<Param>)
    requires
        !has_vars_params(l),
    ensures
        spec_resolve_params(vars, l) == *l,
    decreases l,
{
    match l {
        List::Nil => {},
        List::Cons(p, rest) => {
            lemma_novars_param(vars, p);
            lemma_novars_params(vars, rest);
        },
    }
}

pub proof fn lemma_novars_domain(vars: &List<VarInfo>, d: &DomainGoal)
    requires
        !has_vars_domain(d),
    ensures
        spec_resolve_domain(vars, d) == *d,
    decreases d,
{
    match d {
        DomainGoal::Implemented { self_ty, trait_id: _, args } => {
            lemma_novars_ty(vars, self_ty);
            lemma_novars_params(vars, args);
        },
        DomainGoal::Normalize { assoc: _, args, output } => {
            lemma_novars_params(vars, args);
            lemma_novars_ty(vars, output);
        },
        DomainGoal::WellFormed(t) => lemma_novars_ty(vars, t),
        DomainGoal::InScope(_) => {},
        DomainGoal::Equals(x, y) => {
            lemma_novars_param(vars, x);
            lemma_novars_param(vars, y);
        },
    }
}

pub proof fn lemma_novars_goal(vars: &List<VarInfo>, g: &Goal)
    requires
        !has_vars_goal(g),
    ensures
        spec_resolve_goal(vars, g) == *g,
    decreases g,
{
    match g {
        Goal::Leaf(d) => lemma_novars_domain(vars, d),
        Goal::And(x, y) => {
            lemma_novars_goal(vars, x);
            lemma_novars_goal(vars, y);
        },
        Goal::Or(x, y) => {
            lemma_novars_goal(vars, x);
            lemma_novars_goal(vars, y);
        },
        Goal::Implies(h, g2) => {
            lemma_novars_clauses(vars, h);
            lemma_novars_goal(vars, g2);
        },
        Goal::Not(g2) => lemma_novars_goal(vars, g2),
        Goal::Quantified(_, _, g2) => lemma_novars_goal(vars, g2),
    }
}

pub proof fn lemma_novars_goals(vars: &List<VarInfo>, l: &List<Goal>)
    requires
        !has_vars_goals(l),
    ensures
        spec_resolve_goals(vars, l) == *l,
    decreases l,
{
    match l {
        List::Nil => {},
        List::Cons(g, rest) => {
            lemma_novars_goal(vars, g);
            lemma_novars_goals(vars, rest);
        },
    }
}

pub proof fn lemma_novars_clause(vars: &List<VarInfo>, c: &Clause)
    requires
        !has_vars_clause(c),
    ensures
        spec_resolve_clause(vars, c) == *c,
    decreases c,
{
    lemma_novars_domain(vars, &c.head);
    lemma_novars_goals(vars, &c.body);
}

pub proof fn lemma_novars_clauses(vars: &List<VarInfo>, l: &List<Clause>)
    requires
        !has_vars_clauses(l),
    ensures
        spec_resolve_clauses(vars, l) == *l,
    decreases l,
{
    match l {
        List::Nil => {},
        List::Cons(c, rest) => {
            lemma_novars_clause(vars, c);
            lemma_novars_clauses(vars, rest);
        },
    }
}

// Universal placeholders of a goal: whether it has any, collecting them,
// and reopening them as fresh existential variables.  Negation needs the
// reopening: a negated goal that mentions universal placeholders is not
// decided by simple failure, since an instantiation of the universal could
// make the inner goal provable.

pub open spec fn has_skolems_ty(t: &Ty) -> bool
    decreases t,
{
    match t {
        Ty::App { ctor: _, args } => has_skolems_params(args),
        Ty::Proj { assoc: _, args } => has_skolems_params(args),
        Ty::Skolem(_) => true,
        _ => false,
    }
}

pub open spec fn has_skolems_param(p: &Param) -> bool
    decreases p,
{
    match p {
        Param::Ty(t) => has_skolems_ty(t),
        Param::Lt(l) => l is Skolem,
    }
}

pub open spec fn has_skolems_params(l: &List<Param>) -> bool
    decreases l,
{
    match l {
        List::Nil => false,
        List::Cons(p, rest) => has_skolems_param(p) || has_skolems_params(rest),
    }
}

pub open spec fn has_skolems_domain(d: &DomainGoal) -> bool
    decreases d,
{
    match d {
        DomainGoal::Implemented { self_ty, trait_id: _, args } => has_skolems_ty(self_ty)
            || has_skolems_params(args),
        DomainGoal::Normalize { assoc: _, args, output } => has_skolems_params(args)
            || has_skolems_ty(output),
        DomainGoal::WellFormed(t) => has_skolems_ty(t),
        DomainGoal::InScope(_) => false,
        DomainGoal::Equals(x, y) => has_skolems_param(x) || has_skolems_param(y),
    }
}

pub open spec fn has_skolems_goal(g: &Goal) -> bool
    decreases g,
{
    match g {
        Goal::Leaf(d) => has_skolems_domain(d),
        Goal::And(x, y) => has_skolems_goal(x) || has_skolems_goal(y),
        Goal::Or(x, y) => has_skolems_goal(x) || has_skolems_goal(y),
        Goal::Implies(h, g2) => has_skolems_clauses(h) || has_skolems_goal(g2),
        Goal::Not(g2) => has_skolems_goal(g2),
        Goal::Quantified(_, _, g2) => has_skolems_goal(g2),
    }
}

pub open spec fn has_skolems_goals(l: &List<Goal>) -> bool
    decreases l,
{
    match l {
        List::Nil => false,
        List::Cons(g, rest) => has_skolems_goal(g) || has_skolems_goals(rest),
    }
}

pub open spec fn has_skolems_clause(c: &Clause) -> bool
    decreases c,
{
    has_skolems_domain(&c.head) || has_skolems_goals(&c.body)
}

pub open spec fn has_skolems_clauses(l: &List<Clause>) -> bool
    decreases l,
{
    match l {
        List::Nil => false,
        List::Cons(c, rest) => has_skolems_clause(c) || has_skolems_clauses(rest),
    }
}

pub fn goal_skolems_ty(t: &Ty) -> (r: bool)
    ensures
        r == has_skolems_ty(t),
    decreases t,
{
    match t {
        Ty::App { ctor: _, args } => goal_skolems_params(args),
        Ty::Proj { assoc: _, args } => goal_skolems_params(args),
        Ty::Skolem(_) => true,
        _ => false,
    }
}

pub fn goal_skolems_param(p: &Param) -> (r: bool)
    ensures
        r == has_skolems_param(p),
    decreases p,
{
    match p {
        Param::Ty(t) => goal_skolems_ty(t),
        Param::Lt(l) => matches!(l, Lifetime::Skolem(_)),
    }
}

pub fn goal_skolems_params(l: &List<Param>) -> (r: bool)
    ensures
        r == has_skolems_params(l),
    decreases l,
{
    match l {
        List::Nil => false,
        List::Cons(p, rest) => goal_skolems_param(p) || goal_skolems_params(rest),
    }
}

pub fn goal_skolems_domain(d: &DomainGoal) -> (r: bool)
    ensures
        r == has_skolems_domain(d),
    decreases d,
{
    match d {
        DomainGoal::Implemented { self_ty, trait_id: _, args } => goal_skolems_ty(self_ty)
            || goal_skolems_params(args),
        DomainGoal::Normalize { assoc: _, args, output } => goal_skolems_params(args)
            || goal_skolems_ty(output),
        DomainGoal::WellFormed(t) => goal_skolems_ty(t),
        DomainGoal::InScope(_) => false,
        DomainGoal::Equals(x, y) => goal_skolems_param(x) || goal_skolems_param(y),
    }
}

pub fn goal_skolems(g: &Goal) -> (r: bool)
    ensures
        r == has_skolems_goal(g),
    decreases g,
{
    match g {
        Goal::Leaf(d) => goal_skolems_domain(d),
        Goal::And(x, y) => goal_skolems(x) || goal_skolems(y),
        Goal::Or(x, y) => goal_skolems(x) || goal_skolems(y),
        Goal::Implies(h, g2) => goal_skolems_clauses(h) || goal_skolems(g2),
        Goal::Not(g2) => goal_skolems(g2),
        Goal::Quantified(_, _, g2) => goal_skolems(g2),
    }
}

pub fn goal_skolems_goals(l: &List<Goal>) -> (r: bool)
    ensures
        r == has_skolems_goals(l),
    decreases l,
{
    match l {
        List::Nil => false,
        List::Cons(g, rest) => goal_skolems(g) || goal_skolems_goals(rest),
    }
}

pub fn goal_skolems_clause(c: &Clause) -> (r: bool)
    ensures
        r == has_skolems_clause(c),
    decreases c,
{
    goal_skolems_domain(&c.head) || goal_skolems_goals(&c.body)
}

pub fn goal_skolems_clauses(l: &List<Clause>) -> (r: bool)
    ensures
        r == has_skolems_clauses(l),
    decreases l,
{
    match l {
        List::Nil => false,
        List::Cons(c, rest) => goal_skolems_clause(c) || goal_skolems_clauses(rest),
    }
}

/// The universal placeholders a goal mentions, type and lifetime kinds
/// apart, each in order of first occurrence.
pub struct SkolemAcc {
    pub tys: List<u64>,
    pub lts: List<u64>,
}

pub open spec fn spec_sk_add(seen: List<u64>, u: u64) -> List<u64> {
    if spec_contains_u64(&seen, u) {
        seen
    } else {
        spec_append_u64(&seen, u)
    }
}

fn sk_add(seen: List<u64>, u: u64) -> (r: List<u64>)
    ensures
        r == spec_sk_add(seen, u),
{
    if contains_u64(&seen, u) {
        seen
    } else {
        append_u64(&seen, u)
    }
}

pub open spec fn spec_collect_sk_ty(t: &Ty, acc: SkolemAcc) -> SkolemAcc
    decreases t,
{
    match t {
        Ty::App { ctor: _, args } => spec_collect_sk_params(args, acc),
        Ty::Proj { assoc: _, args } => spec_collect_sk_params(args, acc),
        Ty::Skolem(u) => SkolemAcc { tys: spec_sk_add(acc.tys, *u), lts: acc.lts },
        _ => acc,
    }
}

pub open spec fn spec_collect_sk_lt(l: &Lifetime, acc: SkolemAcc) -> SkolemAcc {
    match l {
        Lifetime::Skolem(u) => SkolemAcc { tys: acc.tys, lts: spec_sk_add(acc.lts, *u) },
        _ => acc,
    }
}

pub open spec fn spec_collect_sk_param(p: &Param, acc: SkolemAcc) -> SkolemAcc
    decreases p,
{
    match p {
        Param::Ty(t) => spec_collect_sk_ty(t, acc),
        Param::Lt(l) => spec_collect_sk_lt(l, acc),
    }
}

pub open spec fn spec_collect_sk_params(l: &List<Param>, acc: SkolemAcc) -> SkolemAcc
    decreases l,
{
    match l {
        List::Nil => acc,
        List::Cons(p, rest) => spec_collect_sk_params(rest, spec_collect_sk_param(p, acc)),
    }
}

pub open spec fn spec_collect_sk_domain(d: &DomainGoal, acc: SkolemAcc) -> SkolemAcc
    decreases d,
{
    match d {
        DomainGoal::Implemented { self_ty, trait_id: _, args } => spec_collect_sk_params(
            args,
            spec_collect_sk_ty(self_ty, acc),
        ),
        DomainGoal::Normalize { assoc: _, args, output } => spec_collect_sk_ty(
            output,
            spec_collect_sk_params(args, acc),
        ),
        DomainGoal::WellFormed(t) => spec_collect_sk_ty(t, acc),
        DomainGoal::InScope(_) => acc,
        DomainGoal::Equals(x, y) => spec_collect_sk_param(y, spec_collect_sk_param(x, acc)),
    }
}

pub open spec fn spec_collect_sk_goal(g: &Goal, acc: SkolemAcc) -> SkolemAcc
    decreases g,
{
    match g {
        Goal::Leaf(d) => spec_collect_sk_domain(d, acc),
        Goal::And(x, y) => spec_collect_sk_goal(y, spec_collect_sk_goal(x, acc)),
        Goal::Or(x, y) => spec_collect_sk_goal(y, spec_collect_sk_goal(x, acc)),
        Goal::Implies(h, g2) => spec_collect_sk_goal(g2, spec_collect_sk_clauses(h, acc)),
        Goal::Not(g2) => spec_collect_sk_goal(g2, acc),
        Goal::Quantified(_, _, g2) => spec_collect_sk_goal(g2, acc),
    }
}

pub open spec fn spec_collect_sk_goals(l: &List<Goal>, acc: SkolemAcc) -> SkolemAcc
    decreases l,
{
    match l {
        List::Nil => acc,
        List::Cons(g, rest) => spec_collect_sk_goals(rest, spec_collect_sk_goal(g, acc)),
    }
}

pub open spec fn spec_collect_sk_clause(c: &Clause, acc: SkolemAcc) -> SkolemAcc
    decreases c,
{
    spec_collect_sk_goals(&c.body, spec_collect_sk_domain(&c.head, acc))
}

pub open spec fn spec_collect_sk_clauses(l: &List<Clause>, acc: SkolemAcc) -> SkolemAcc
    decreases l,
{
    match l {
        List::Nil => acc,
        List::Cons(c, rest) => spec_collect_sk_clauses(rest, spec_collect_sk_clause(c, acc)),
    }
}

pub fn collect_sk_ty(t: &Ty, acc: SkolemAcc) -> (r: SkolemAcc)
    ensures
        r == spec_collect_sk_ty(t, acc),
    decreases t,
{
    match t {
        Ty::App { ctor: _, args } => collect_sk_params(args, acc),
        Ty::Proj { assoc: _, args } => collect_sk_params(args, acc),
        Ty::Skolem(u) => SkolemAcc { tys: sk_add(acc.tys, *u), lts: acc.lts },
        _ => acc,
    }
}

pub fn collect_sk_lt(l: &Lifetime, acc: SkolemAcc) -> (r: SkolemAcc)
    ensures
        r == spec_collect_sk_lt(l, acc),
{
    match l {
        Lifetime::Skolem(u) => SkolemAcc { tys: acc.tys, lts: sk_add(acc.lts, *u) },
        _ => acc,
    }
}

pub fn collect_sk_param(p: &Param, acc: SkolemAcc) -> (r: SkolemAcc)
    ensures
        r == spec_collect_sk_param(p, acc),
    decreases p,
{
    match p {
        Param::Ty(t) => collect_sk_ty(t, acc),
        Param::Lt(l) => collect_sk_lt(l, acc),
    }
}

pub fn collect_sk_params(l: &List<Param>, acc: SkolemAcc) -> (r: SkolemAcc)
    ensures
        r == spec_collect_sk_params(l, acc),
    decreases l,
{
    match l {
        List::Nil => acc,
        List::Cons(p, rest) => {
            let acc1 = collect_sk_param(p, acc);
            collect_sk_params(rest, acc1)
        },
    }
}

pub fn collect_sk_domain(d: &DomainGoal, acc: SkolemAcc) -> (r: SkolemAcc)
    ensures
        r == spec_collect_sk_domain(d, acc),
    decreases d,
{
    match d {
        DomainGoal::Implemented { self_ty, trait_id: _, args } => {
            let acc1 = collect_sk_ty(self_ty, acc);
            collect_sk_params(args, acc1)
        },
        DomainGoal::Normalize { assoc: _, args, output } => {
            let acc1 = collect_sk_params(args, acc);
            collect_sk_ty(output, acc1)
        },
        DomainGoal::WellFormed(t) => collect_sk_ty(t, acc),
        DomainGoal::InScope(_) => acc,
        DomainGoal::Equals(x, y) => {
            let acc1 = collect_sk_param(x, acc);
            collect_sk_param(y, acc1)
        },
    }
}

pub fn collect_sk_goal(g: &Goal, acc: SkolemAcc) -> (r: SkolemAcc)
    ensures
        r == spec_collect_sk_goal(g, acc),
    decreases g,
{
    match g {
        Goal::Leaf(d) => collect_sk_domain(d, acc),
        Goal::And(x, y) => {
            let acc1 = collect_sk_goal(x, acc);
            collect_sk_goal(y, acc1)
        },
        Goal::Or(x, y) => {
            let acc1 = collect_sk_goal(x, acc);
            collect_sk_goal(y, acc1)
        },
        Goal::Implies(h, g2) => {
            let acc1 = collect_sk_clauses(h, acc);
            collect_sk_goal(g2, acc1)
        },
        Goal::Not(g2) => collect_sk_goal(g2, acc),
        Goal::Quantified(_, _, g2) => collect_sk_goal(g2, acc),
    }
}

pub fn collect_sk_goals(l: &List<Goal>, acc: SkolemAcc) -> (r: SkolemAcc)
    ensures
        r == spec_collect_sk_goals(l, acc),
    decreases l,
{
    match l {
        List::Nil => acc,
        List::Cons(g, rest) => {
            let acc1 = collect_sk_goal(g, acc);
            collect_sk_goals(rest, acc1)
        },
    }
}

pub fn collect_sk_clause(c: &Clause, acc: SkolemAcc) -> (r: SkolemAcc)
    ensures
        r == spec_collect_sk_clause(c, acc),
    decreases c,
{
    let acc1 = collect_sk_domain(&c.head, acc);
    collect_sk_goals(&c.body, acc1)
}

pub fn collect_sk_clauses(l: &List<Clause>, acc: SkolemAcc) -> (r: SkolemAcc)
    ensures
        r == spec_collect_sk_clauses(l, acc),
    decreases l,
{
    match l {
        List::Nil => acc,
        List::Cons(c, rest) => {
            let acc1 = collect_sk_clause(c, acc);
            collect_sk_clauses(rest, acc1)
        },
    }
}

// Reopening: rewrite each universal placeholder to the fresh existential
// variable made for it, `tyvars` and `ltvars` being aligned with the
// collected `tys` and `lts`.

pub open spec fn spec_reopen_ty(
    t: &Ty,
    tys: &List<u64>,
    tyvars: &List<u64>,
    lts: &List<u64>,
    ltvars: &List<u64>,
) -> Ty
    decreases t,
{
    match t {
        Ty::App { ctor, args } => Ty::App {
            ctor: *ctor,
            args: Box::new(spec_reopen_params(args, tys, tyvars, lts, ltvars)),
        },
        Ty::Proj { assoc, args } => Ty::Proj {
            assoc: *assoc,
            args: Box::new(spec_reopen_params(args, tys, tyvars, lts, ltvars)),
        },
        Ty::Var(v) => Ty::Var(*v),
        Ty::Skolem(u) => Ty::Var(spec_nth_u64(tyvars, spec_index_of(tys, *u))),
        Ty::Bound(d, i) => Ty::Bound(*d, *i),
    }
}

pub open spec fn spec_reopen_lt(
    l: &Lifetime,
    lts: &List<u64>,
    ltvars: &List<u64>,
) -> Lifetime {
    match l {
        Lifetime::Var(v) => Lifetime::Var(*v),
        Lifetime::Skolem(u) => Lifetime::Var(spec_nth_u64(ltvars, spec_index_of(lts, *u))),
        Lifetime::Bound(d, i) => Lifetime::Bound(*d, *i),
    }
}

pub open spec fn spec_reopen_param(
    p: &Param,
    tys: &List<u64>,
    tyvars: &List<u64>,
    lts: &List<u64>,
    ltvars: &List<u64>,
) -> Param
    decreases p,
{
    match p {
        Param::Ty(t) => Param::Ty(spec_reopen_ty(t, tys, tyvars, lts, ltvars)),
        Param::Lt(l) => Param::Lt(spec_reopen_lt(l, lts, ltvars)),
    }
}

pub open spec fn spec_reopen_params(
    l: &List<Param>,
    tys: &List<u64>,
    tyvars: &List<u64>,
    lts: &List<u64>,
    ltvars: &List<u64>,
) -> List<Param>
    decreases l,
{
    match l {
        List::Nil => List::Nil,
        List::Cons(p, rest) => List::Cons(
            spec_reopen_param(p, tys, tyvars, lts, ltvars),
            Box::new(spec_reopen_params(rest, tys, tyvars, lts, ltvars)),
        ),
    }
}

pub open spec fn spec_reopen_domain(
    d: &DomainGoal,
    tys: &List<u64>,
    tyvars: &List<u64>,
    lts: &List<u64>,
    ltvars: &List<u64>,
) -> DomainGoal
    decreases d,
{
    match d {
        DomainGoal::Implemented { self_ty, trait_id, args } => DomainGoal::Implemented {
            self_ty: spec_reopen_ty(self_ty, tys, tyvars, lts, ltvars),
            trait_id: *trait_id,
            args: spec_reopen_params(args, tys, tyvars, lts, ltvars),
        },
        DomainGoal::Normalize { assoc, args, output } => DomainGoal::Normalize {
            assoc: *assoc,
            args: spec_reopen_params(args, tys, tyvars, lts, ltvars),
            output: spec_reopen_ty(output, tys, tyvars, lts, ltvars),
        },
        DomainGoal::WellFormed(t) => DomainGoal::WellFormed(
            spec_reopen_ty(t, tys, tyvars, lts, ltvars),
        ),
        DomainGoal::InScope(id) => DomainGoal::InScope(*id),
        DomainGoal::Equals(x, y) => DomainGoal::Equals(
            spec_reopen_param(x, tys, tyvars, lts, ltvars),
            spec_reopen_param(y, tys, tyvars, lts, ltvars),
        ),
    }
}

pub open spec fn spec_reopen_goal(
    g: &Goal,
    tys: &List<u64>,
    tyvars: &List<u64>,
    lts: &List<u64>,
    ltvars: &List<u64>,
) -> Goal
    decreases g,
{
    match g {
        Goal::Leaf(d) => Goal::Leaf(spec_reopen_domain(d, tys, tyvars, lts, ltvars)),
        Goal::And(x, y) => Goal::And(
            Box::new(spec_reopen_goal(x, tys, tyvars, lts, ltvars)),
            Box::new(spec_reopen_goal(y, tys, tyvars, lts, ltvars)),
        ),
        Goal::Or(x, y) => Goal::Or(
            Box::new(spec_reopen_goal(x, tys, tyvars, lts, ltvars)),
            Box::new(spec_reopen_goal(y, tys, tyvars, lts, ltvars)),
        ),
        Goal::Implies(h, g2) => Goal::Implies(
            Box::new(spec_reopen_clauses(h, tys, tyvars, lts, ltvars)),
            Box::new(spec_reopen_goal(g2, tys, tyvars, lts, ltvars)),
        ),
        Goal::Not(g2) => Goal::Not(Box::new(spec_reopen_goal(g2, tys, tyvars, lts, ltvars))),
        Goal::Quantified(q, k, g2) => Goal::Quantified(
            *q,
            *k,
            Box::new(spec_reopen_goal(g2, tys, tyvars, lts, ltvars)),
        ),
    }
}

pub open spec fn spec_reopen_goals(
    l: &List<Goal>,
    tys: &List<u64>,
    tyvars: &List<u64>,
    lts: &List<u64>,
    ltvars: &List<u64>,
) -> List<Goal>
    decreases l,
{
    match l {
        List::Nil => List::Nil,
        List::Cons(g, rest) => List::Cons(
            spec_reopen_goal(g, tys, tyvars, lts, ltvars),
            Box::new(spec_reopen_goals(rest, tys, tyvars, lts, ltvars)),
        ),
    }
}

pub open spec fn spec_reopen_clause(
    c: &Clause,
    tys: &List<u64>,
    tyvars: &List<u64>,
    lts: &List<u64>,
    ltvars: &List<u64>,
) -> Clause
    decreases c,
{
    Clause {
        binders: c.binders,
        head: spec_reopen_domain(&c.head, tys, tyvars, lts, ltvars),
        body: spec_reopen_goals(&c.body, tys, tyvars, lts, ltvars),
    }
}

pub open spec fn spec_reopen_clauses(
    l: &List<Clause>,
    tys: &List<u64>,
    tyvars: &List<u64>,
    lts: &List<u64>,
    ltvars: &List<u64>,
) -> List<Clause>
    decreases l,
{
    match l {
        List::Nil => List::Nil,
        List::Cons(c, rest) => List::Cons(
            spec_reopen_clause(c, tys, tyvars, lts, ltvars),
            Box::new(spec_reopen_clauses(rest, tys, tyvars, lts, ltvars)),
        ),
    }
}

/// Reopening rewrites terms only: the goal keeps its node count.
pub proof fn lemma_reopen_goal_size(
    g: &Goal,
    tys: &List<u64>,
    tyvars: &List<u64>,
    lts: &List<u64>,
    ltvars: &List<u64>,
)
    ensures
        spec_reopen_goal(g, tys, tyvars, lts, ltvars).size() == g.size(),
    decreases g,
{
    match g {
        Goal::Leaf(_) => {},
        Goal::And(x, y) => {
            lemma_reopen_goal_size(x, tys, tyvars, lts, ltvars);
            lemma_reopen_goal_size(y, tys, tyvars, lts, ltvars);
        },
        Goal::Or(x, y) => {
            lemma_reopen_goal_size(x, tys, tyvars, lts, ltvars);
            lemma_reopen_goal_size(y, tys, tyvars, lts, ltvars);
        },
        Goal::Implies(_, g2) => lemma_reopen_goal_size(g2, tys, tyvars, lts, ltvars),
        Goal::Not(g2) => lemma_reopen_goal_size(g2, tys, tyvars, lts, ltvars),
        Goal::Quantified(_, _, g2) => lemma_reopen_goal_size(g2, tys, tyvars, lts, ltvars),
    }
}

pub fn reopen_ty(
    t: &Ty,
    tys: &List<u64>,
    tyvars: &List<u64>,
    lts: &List<u64>,
    ltvars: &List<u64>,
) -> (r: Ty)
    ensures
        r == spec_reopen_ty(t, tys, tyvars, lts, ltvars),
    decreases t,
{
    match t {
        Ty::App { ctor, args } => Ty::App {
            ctor: *ctor,
            args: Box::new(reopen_params(args, tys, tyvars, lts, ltvars)),
        },
        Ty::Proj { assoc, args } => Ty::Proj {
            assoc: *assoc,
            args: Box::new(reopen_params(args, tys, tyvars, lts, ltvars)),
        },
        Ty::Var(v) => Ty::Var(*v),
        Ty::Skolem(u) => Ty::Var(nth_u64(tyvars, index_of(tys, *u))),
        Ty::Bound(d, i) => Ty::Bound(*d, *i),
    }
}

pub fn reopen_lt(l: &Lifetime, lts: &List<u64>, ltvars: &List<u64>) -> (r: Lifetime)
    ensures
        r == spec_reopen_lt(l, lts, ltvars),
{
    match l {
        Lifetime::Var(v) => Lifetime::Var(*v),
        Lifetime::Skolem(u) => Lifetime::Var(nth_u64(ltvars, index_of(lts, *u))),
        Lifetime::Bound(d, i) => Lifetime::Bound(*d, *i),
    }
}

pub fn reopen_param(
    p: &Param,
    tys: &List<u64>,
    tyvars: &List<u64>,
    lts: &List<u64>,
    ltvars: &List<u64>,
) -> (r: Param)
    ensures
        r == spec_reopen_param(p, tys, tyvars, lts, ltvars),
    decreases p,
{
    match p {
        Param::Ty(t) => Param::Ty(reopen_ty(t, tys, tyvars, lts, ltvars)),
        Param::Lt(l) => Param::Lt(reopen_lt(l, lts, ltvars)),
    }
}

pub fn reopen_params(
    l: &List<Param>,
    tys: &List<u64>,
    tyvars: &List<u64>,
    lts: &List<u64>,
    ltvars: &List<u64>,
) -> (r: List<Param>)
    ensures
        r == spec_reopen_params(l, tys, tyvars, lts, ltvars),
    decreases l,
{
    match l {
        List::Nil => List::Nil,
        List::Cons(p, rest) => List::Cons(
            reopen_param(p, tys, tyvars, lts, ltvars),
            Box::new(reopen_params(rest, tys, tyvars, lts, ltvars)),
        ),
    }
}

pub fn reopen_domain(
    d: &DomainGoal,
    tys: &List<u64>,
    tyvars: &List<u64>,
    lts: &List<u64>,
    ltvars: &List<u64>,
) -> (r: DomainGoal)
    ensures
        r == spec_reopen_domain(d, tys, tyvars, lts, ltvars),
    decreases d,
{
    match d {
        DomainGoal::Implemented { self_ty, trait_id, args } => DomainGoal::Implemented {
            self_ty: reopen_ty(self_ty, tys, tyvars, lts, ltvars),
            trait_id: *trait_id,
            args: reopen_params(args, tys, tyvars, lts, ltvars),
        },
        DomainGoal::Normalize { assoc, args, output } => DomainGoal::Normalize {
            assoc: *assoc,
            args: reopen_params(args, tys, tyvars, lts, ltvars),
            output: reopen_ty(output, tys, tyvars, lts, ltvars),
        },
        DomainGoal::WellFormed(t) => DomainGoal::WellFormed(
            reopen_ty(t, tys, tyvars, lts, ltvars),
        ),
        DomainGoal::InScope(id) => DomainGoal::InScope(*id),
        DomainGoal::Equals(x, y) => DomainGoal::Equals(
            reopen_param(x, tys, tyvars, lts, ltvars),
            reopen_param(y, tys, tyvars, lts, ltvars),
        ),
    }
}

pub fn reopen_goal(
    g: &Goal,
    tys: &List<u64>,
    tyvars: &List<u64>,
    lts: &List<u64>,
    ltvars: &List<u64>,
) -> (r: Goal)
    ensures
        r == spec_reopen_goal(g, tys, tyvars, lts, ltvars),
    decreases g,
{
    match g {
        Goal::Leaf(d) => Goal::Leaf(reopen_domain(d, tys, tyvars, lts, ltvars)),
        Goal::And(x, y) => Goal::And(
            Box::new(reopen_goal(x, tys, tyvars, lts, ltvars)),
            Box::new(reopen_goal(y, tys, tyvars, lts, ltvars)),
        ),
        Goal::Or(x, y) => Goal::Or(
            Box::new(reopen_goal(x, tys, tyvars, lts, ltvars)),
            Box::new(reopen_goal(y, tys, tyvars, lts, ltvars)),
        ),
        Goal::Implies(h, g2) => Goal::Implies(
            Box::new(reopen_clauses(h, tys, tyvars, lts, ltvars)),
            Box::new(reopen_goal(g2, tys, tyvars, lts, ltvars)),
        ),
        Goal::Not(g2) => Goal::Not(Box::new(reopen_goal(g2, tys, tyvars, lts, ltvars))),
        Goal::Quantified(q, k, g2) => Goal::Quantified(
            *q,
            clone_kinds(k),
            Box::new(reopen_goal(g2, tys, tyvars, lts, ltvars)),
        ),
    }
}

pub fn reopen_goals(
    l: &List<Goal>,
    tys: &List<u64>,
    tyvars: &List<u64>,
    lts: &List<u64>,
    ltvars: &List<u64>,
) -> (r: List<Goal>)
    ensures
        r == spec_reopen_goals(l, tys, tyvars, lts, ltvars),
    decreases l,
{
    match l {
        List::Nil => List::Nil,
        List::Cons(g, rest) => List::Cons(
            reopen_goal(g, tys, tyvars, lts, ltvars),
            Box::new(reopen_goals(rest, tys, tyvars, lts, ltvars)),
        ),
    }
}

pub fn reopen_clause(
    c: &Clause,
    tys: &List<u64>,
    tyvars: &List<u64>,
    lts: &List<u64>,
    ltvars: &List<u64>,
) -> (r: Clause)
    ensures
        r == spec_reopen_clause(c, tys, tyvars, lts, ltvars),
    decreases c,
{
    Clause {
        binders: clone_kinds(&c.binders),
        head: reopen_domain(&c.head, tys, tyvars, lts, ltvars),
        body: reopen_goals(&c.body, tys, tyvars, lts, ltvars),
    }
}

pub fn reopen_clauses(
    l: &List<Clause>,
    tys: &List<u64>,
    tyvars: &List<u64>,
    lts: &List<u64>,
    ltvars: &List<u64>,
) -> (r: List<Clause>)
    ensures
        r == spec_reopen_clauses(l, tys, tyvars, lts, ltvars),
    decreases l,
{
    match l {
        List::Nil => List::Nil,
        List::Cons(c, rest) => List::Cons(
            reopen_clause(c, tys, tyvars, lts, ltvars),
            Box::new(reopen_clauses(rest, tys, tyvars, lts, ltvars)),
        ),
    }
}

} // verus!
