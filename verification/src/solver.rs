//! The solving engine: a fixed-point recursive search, with an optional
//! memoizing (tabling) mode.
//!
//! A depth-first search over the clauses of the environment, with cycle
//! detection through a stack of canonicalized goals.  A cycle through
//! coinductive capabilities proves trivially; any other cycle returns the
//! current assumption for the repeated goal, and the whole subproblem is
//! re-run with the newly computed answer fed back in until the answer
//! stops changing, with ambiguity terminal.  A configurable recursion
//! ceiling turns runaway searches into the fatal overflow answer.
//!
//! Under the tabling strategy, a goal whose search finished without
//! depending on any frame still on the stack is recorded in an answer
//! table keyed by its canonical form, and replayed instead of re-derived
//! when it comes up again.

use vstd::prelude::*;
use crate::list::List;
use crate::ir::{
    Clause, DomainGoal, Environment, Goal, Lifetime, Param, ParamKind, Program, QuantifierKind,
    Ty, clone_clauses, clone_goal, clone_ty, clone_params,
};
use crate::solution::{
    CanonicalBinder, Constrained, LifetimeEq, Overflow, Quantified, Solution, Substitution,
    Successful, binders_eq, clone_binders, clone_solution, constraints_eq, solution_eq,
};
use crate::ir::params_eq;
use crate::infer::{
    InferenceTable, VarInfo, table_lookup, lookup_var, spec_append_var, new_var, clone_table,
};
use crate::unify::{
    UnifyOutcome, spec_unify_param, spec_unify_params, unify_param, unify_params,
    spec_append_constraints, append_constraints,
};
use crate::canonical::{
    CanonKey, CanonicalGoal, canonicalize_key, spec_canonicalize_key, canonicalize_answer,
    spec_canonicalize_answer, clone_key, key_eq, decanon_params, spec_decanon_params,
    decanon_constraints, spec_decanon_constraints, inst_domain, spec_inst_domain, inst_goal,
    spec_inst_goal, inst_goals, spec_inst_goals, resolve_goal, spec_resolve_goal, goal_vars,
    has_vars_goal, spec_contains_u64, contains_u64, lemma_inst_goal_size,
    lemma_resolve_goal_size, SkolemAcc, spec_collect_sk_goal, collect_sk_goal, goal_skolems,
    has_skolems_goal, spec_reopen_goal, reopen_goal, lemma_reopen_goal_size,
};

verus! {

/// The answer to a canonicalized subproblem.
pub enum Answer {
    /// The recursion ceiling was exceeded: fatal.
    Overflowed,
    /// Definitely not provable.
    NoSolution,
    /// Provable or ambiguous, with the canonical solution.
    Found(Solution<Substitution>),
}

/// One goal currently being proved, for cycle detection.
pub struct StackEntry {
    pub key: CanonicalGoal,
    pub coinductive: bool,
    pub assumption: Answer,
    pub depth: u64,
}

/// What solving one goal in context produced.
pub enum GoalOutcome {
    Overflowed,
    NoSolution,
    Success(Successful),
}

/// The result of solving a goal: the outcome, the store as it now stands,
/// the residual lifetime constraints, and the depths of the stack frames
/// that cycles pointed at.
pub struct GoalResult {
    pub outcome: GoalOutcome,
    pub table: InferenceTable,
    pub constraints: List<LifetimeEq>,
    pub hit: List<u64>,
    pub tables: List<AnswerTable>,
}

/// The result of solving a canonical subproblem.
pub struct CanonResult {
    pub ans: Answer,
    pub hit: List<u64>,
    pub tables: List<AnswerTable>,
}

/// A completed answer table of the memoizing strategy: a canonicalized
/// goal and the answer its search space settled on.
pub struct AnswerTable {
    pub key: CanonicalGoal,
    pub answer: Answer,
}

pub fn answer_eq(a: &Answer, b: &Answer) -> (r: bool)
    ensures
        r == (a == b),
{
    match (a, b) {
        (Answer::Overflowed, Answer::Overflowed) => true,
        (Answer::NoSolution, Answer::NoSolution) => true,
        (Answer::Found(x), Answer::Found(y)) => solution_eq(x, y),
        _ => false,
    }
}

pub fn clone_answer(a: &Answer) -> (r: Answer)
    ensures
        r == *a,
{
    match a {
        Answer::Overflowed => Answer::Overflowed,
        Answer::NoSolution => Answer::NoSolution,
        Answer::Found(s) => Answer::Found(clone_solution(s)),
    }
}

fn clone_stack(s: &List<StackEntry>) -> (r: List<StackEntry>)
    ensures
        r == *s,
    decreases s,
{
    match s {
        List::Nil => List::Nil,
        List::Cons(e, rest) => List::Cons(
            StackEntry {
                key: clone_key(&e.key),
                coinductive: e.coinductive,
                assumption: clone_answer(&e.assumption),
                depth: e.depth,
            },
            Box::new(clone_stack(rest)),
        ),
    }
}

// Small helpers over lengths.

pub open spec fn spec_stack_len(s: &List<StackEntry>) -> u64
    decreases s,
{
    match s {
        List::Nil => 0,
        List::Cons(_, rest) => {
            let n = spec_stack_len(rest);
            if n == u64::MAX {
                u64::MAX
            } else {
                (n + 1) as u64
            }
        },
    }
}

fn stack_len(s: &List<StackEntry>) -> (r: u64)
    ensures
        r == spec_stack_len(s),
    decreases s,
{
    match s {
        List::Nil => 0,
        List::Cons(_, rest) => {
            let n = stack_len(rest);
            if n == u64::MAX {
                u64::MAX
            } else {
                n + 1
            }
        },
    }
}

pub open spec fn spec_binders_len(l: &List<CanonicalBinder>) -> u64
    decreases l,
{
    match l {
        List::Nil => 0,
        List::Cons(_, rest) => {
            let n = spec_binders_len(rest);
            if n == u64::MAX {
                u64::MAX
            } else {
                (n + 1) as u64
            }
        },
    }
}

fn binders_len(l: &List<CanonicalBinder>) -> (r: u64)
    ensures
        r == spec_binders_len(l),
    decreases l,
{
    match l {
        List::Nil => 0,
        List::Cons(_, rest) => {
            let n = binders_len(rest);
            if n == u64::MAX {
                u64::MAX
            } else {
                n + 1
            }
        },
    }
}

/// Is the leaf goal about a coinductive capability?
pub open spec fn spec_is_coinductive(pr: &Program, d: &DomainGoal) -> bool {
    match d {
        DomainGoal::Implemented { self_ty: _, trait_id, args: _ } => spec_contains_u64(
            &pr.coinductive,
            *trait_id,
        ),
        _ => false,
    }
}

fn is_coinductive(pr: &Program, d: &DomainGoal) -> (r: bool)
    ensures
        r == spec_is_coinductive(pr, d),
{
    match d {
        DomainGoal::Implemented { self_ty: _, trait_id, args: _ } => contains_u64(
            &pr.coinductive,
            *trait_id,
        ),
        _ => false,
    }
}

/// Information about a cycle: the depth of the repeated frame, whether
/// every frame of the cycle is coinductive, and the repeated frame's
/// current assumption.
pub struct CycleInfo {
    pub depth: u64,
    pub coinductive: bool,
    pub assumption: Answer,
}

pub open spec fn spec_find_cycle(s: &List<StackEntry>, key: &CanonicalGoal) -> Option<CycleInfo>
    decreases s,
{
    match s {
        List::Nil => None,
        List::Cons(e, rest) => if e.key == *key {
            Some(CycleInfo { depth: e.depth, coinductive: e.coinductive, assumption: e.assumption })
        } else {
            match spec_find_cycle(rest, key) {
                Some(ci) => Some(
                    CycleInfo {
                        depth: ci.depth,
                        coinductive: ci.coinductive && e.coinductive,
                        assumption: ci.assumption,
                    },
                ),
                None => None,
            }
        },
    }
}

fn find_cycle(s: &List<StackEntry>, key: &CanonicalGoal) -> (r: Option<CycleInfo>)
    ensures
        r == spec_find_cycle(s, key),
    decreases s,
{
    match s {
        List::Nil => None,
        List::Cons(e, rest) => if key_eq(&e.key, key) {
            Some(
                CycleInfo {
                    depth: e.depth,
                    coinductive: e.coinductive,
                    assumption: clone_answer(&e.assumption),
                },
            )
        } else {
            match find_cycle(rest, key) {
                Some(ci) => Some(
                    CycleInfo {
                        depth: ci.depth,
                        coinductive: ci.coinductive && e.coinductive,
                        assumption: ci.assumption,
                    },
                ),
                None => None,
            }
        },
    }
}

// Canonical solutions used directly: the identity substitution, as the
// trivial proof of a coinductive cycle and as the no-guidance ambiguity.

pub open spec fn spec_identity_subst(binders: &List<CanonicalBinder>, next: u64) -> List<Param>
    decreases binders,
{
    match binders {
        List::Nil => List::Nil,
        List::Cons(b, rest) => List::Cons(
            if b.kind is Lifetime {
                Param::Lt(Lifetime::Var(next))
            } else {
                Param::Ty(Ty::Var(next))
            },
            Box::new(
                spec_identity_subst(
                    rest,
                    if next == u64::MAX {
                        u64::MAX
                    } else {
                        (next + 1) as u64
                    },
                ),
            ),
        ),
    }
}

fn identity_subst(binders: &List<CanonicalBinder>, next: u64) -> (r: List<Param>)
    ensures
        r == spec_identity_subst(binders, next),
    decreases binders,
{
    match binders {
        List::Nil => List::Nil,
        List::Cons(b, rest) => List::Cons(
            if matches!(b.kind, ParamKind::Lifetime) {
                Param::Lt(Lifetime::Var(next))
            } else {
                Param::Ty(Ty::Var(next))
            },
            Box::new(
                identity_subst(
                    rest,
                    if next == u64::MAX {
                        u64::MAX
                    } else {
                        next + 1
                    },
                ),
            ),
        ),
    }
}

pub open spec fn spec_identity_solution(key: &CanonicalGoal, successful: Successful) -> Solution<
    Substitution,
> {
    Solution {
        successful,
        refined_goal: Quantified {
            binders: key.binders,
            value: Constrained {
                value: spec_identity_subst(&key.binders, 0),
                constraints: List::Nil,
            },
        },
    }
}

fn identity_solution(key: &CanonicalGoal, successful: Successful) -> (r: Solution<Substitution>)
    ensures
        r == spec_identity_solution(key, successful),
{
    Solution {
        successful,
        refined_goal: Quantified {
            binders: clone_binders(&key.binders),
            value: Constrained { value: identity_subst(&key.binders, 0), constraints: List::Nil },
        },
    }
}

// Fresh variables for a binder list.

pub open spec fn spec_new_var(table: InferenceTable, kind: ParamKind, universe: u64) -> Option<
    (InferenceTable, u64),
> {
    if table.len == u64::MAX {
        None
    } else {
        Some(
            (
                InferenceTable {
                    len: (table.len + 1) as u64,
                    vars: spec_append_var(
                        &table.vars,
                        VarInfo { kind, universe, binding: None },
                    ),
                },
                table.len,
            ),
        )
    }
}

fn fresh_var(table: InferenceTable, kind: ParamKind, universe: u64) -> (r: Option<
    (InferenceTable, u64),
>)
    requires
        table.wf(),
    ensures
        r == spec_new_var(table, kind, universe),
        r matches Some((t2, _)) ==> t2.wf(),
{
    let r = new_var(table, kind, universe);
    match r {
        Some((t2, v)) => Some((t2, v)),
        None => None,
    }
}

/// Fresh variables of the given kinds, all at one universe, handed back
/// as parameters for instantiating a clause binder.
pub open spec fn spec_make_kind_vars(table: InferenceTable, kinds: &List<ParamKind>, universe: u64) -> Option<(InferenceTable, List<Param>)>
    decreases kinds,
{
    match kinds {
        List::Nil => Some((table, List::Nil)),
        List::Cons(k, rest) => match spec_new_var(table, *k, universe) {
            None => None,
            Some((t2, v)) => match spec_make_kind_vars(t2, rest, universe) {
                None => None,
                Some((t3, args)) => Some(
                    (
                        t3,
                        List::Cons(
                            if *k is Lifetime {
                                Param::Lt(Lifetime::Var(v))
                            } else {
                                Param::Ty(Ty::Var(v))
                            },
                            Box::new(args),
                        ),
                    ),
                ),
            },
        },
    }
}

fn make_kind_vars(table: InferenceTable, kinds: &List<ParamKind>, universe: u64) -> (r: Option<
    (InferenceTable, List<Param>),
>)
    requires
        table.wf(),
    ensures
        r == spec_make_kind_vars(table, kinds, universe),
        r matches Some((t2, _)) ==> t2.wf(),
    decreases kinds,
{
    match kinds {
        List::Nil => Some((table, List::Nil)),
        List::Cons(k, rest) => match fresh_var(table, *k, universe) {
            None => None,
            Some((t2, v)) => match make_kind_vars(t2, rest, universe) {
                None => None,
                Some((t3, args)) => Some(
                    (
                        t3,
                        List::Cons(
                            if matches!(k, ParamKind::Lifetime) {
                                Param::Lt(Lifetime::Var(v))
                            } else {
                                Param::Ty(Ty::Var(v))
                            },
                            Box::new(args),
                        ),
                    ),
                ),
            },
        },
    }
}

/// Fresh variables for the binders of a canonical answer, with universes
/// read back through the caller's universe map.
pub open spec fn spec_make_binder_vars(
    table: InferenceTable,
    binders: &List<CanonicalBinder>,
    umap: &List<u64>,
    fb: u64,
) -> Option<(InferenceTable, List<u64>)>
    decreases binders,
{
    match binders {
        List::Nil => Some((table, List::Nil)),
        List::Cons(b, rest) => {
            let uni = crate::canonical::spec_decol(umap, b.universe, fb);
            match spec_new_var(table, b.kind, uni) {
                None => None,
                Some((t2, v)) => match spec_make_binder_vars(t2, rest, umap, fb) {
                    None => None,
                    Some((t3, ids)) => Some((t3, List::Cons(v, Box::new(ids)))),
                },
            }
        },
    }
}

fn make_binder_vars(
    table: InferenceTable,
    binders: &List<CanonicalBinder>,
    umap: &List<u64>,
    fb: u64,
) -> (r: Option<(InferenceTable, List<u64>)>)
    requires
        table.wf(),
    ensures
        r == spec_make_binder_vars(table, binders, umap, fb),
        r matches Some((t2, _)) ==> t2.wf(),
    decreases binders,
{
    match binders {
        List::Nil => Some((table, List::Nil)),
        List::Cons(b, rest) => {
            let uni = crate::canonical::decol(umap, b.universe, fb);
            match fresh_var(table, b.kind, uni) {
                None => None,
                Some((t2, v)) => match make_binder_vars(t2, rest, umap, fb) {
                    None => None,
                    Some((t3, ids)) => Some((t3, List::Cons(v, Box::new(ids)))),
                },
            }
        },
    }
}

/// Fresh variables standing in for reopened universal placeholders, one
/// per collected placeholder, all of one kind at one universe.
pub open spec fn spec_make_sk_vars(
    table: InferenceTable,
    sks: &List<u64>,
    kind: ParamKind,
    universe: u64,
) -> Option<(InferenceTable, List<u64>)>
    decreases sks,
{
    match sks {
        List::Nil => Some((table, List::Nil)),
        List::Cons(_, rest) => match spec_new_var(table, kind, universe) {
            None => None,
            Some((t2, v)) => match spec_make_sk_vars(t2, rest, kind, universe) {
                None => None,
                Some((t3, ids)) => Some((t3, List::Cons(v, Box::new(ids)))),
            },
        },
    }
}

fn make_sk_vars(table: InferenceTable, sks: &List<u64>, kind: ParamKind, universe: u64) -> (r:
    Option<(InferenceTable, List<u64>)>)
    requires
        table.wf(),
    ensures
        r == spec_make_sk_vars(table, sks, kind, universe),
        r matches Some((t2, _)) ==> t2.wf(),
    decreases sks,
{
    match sks {
        List::Nil => Some((table, List::Nil)),
        List::Cons(_, rest) => match fresh_var(table, kind, universe) {
            None => None,
            Some((t2, v)) => match make_sk_vars(t2, rest, kind, universe) {
                None => None,
                Some((t3, ids)) => Some((t3, List::Cons(v, Box::new(ids)))),
            },
        },
    }
}

/// The table holding exactly the variables of a canonical goal's binders.
pub open spec fn spec_build_table(binders: &List<CanonicalBinder>) -> Option<InferenceTable> {
    spec_build_table_from(InferenceTable { len: 0, vars: List::Nil }, binders)
}

pub open spec fn spec_build_table_from(table: InferenceTable, binders: &List<CanonicalBinder>) -> Option<InferenceTable>
    decreases binders,
{
    match binders {
        List::Nil => Some(table),
        List::Cons(b, rest) => match spec_new_var(table, b.kind, b.universe) {
            None => None,
            Some((t2, _)) => spec_build_table_from(t2, rest),
        },
    }
}

fn build_table_from(table: InferenceTable, binders: &List<CanonicalBinder>) -> (r: Option<
    InferenceTable,
>)
    requires
        table.wf(),
    ensures
        r == spec_build_table_from(table, binders),
        r matches Some(t2) ==> t2.wf(),
    decreases binders,
{
    match binders {
        List::Nil => Some(table),
        List::Cons(b, rest) => match fresh_var(table, b.kind, b.universe) {
            None => None,
            Some((t2, _)) => build_table_from(t2, rest),
        },
    }
}

fn build_table(binders: &List<CanonicalBinder>) -> (r: Option<InferenceTable>)
    ensures
        r == spec_build_table(binders),
        r matches Some(t2) ==> t2.wf(),
{
    let empty = InferenceTable { len: 0, vars: List::Nil };
    build_table_from(empty, binders)
}

/// Universal placeholders for one quantifier: each binder gets the next
/// universe.  Returns the parameters and the last universe used.
pub open spec fn spec_skolem_args(kinds: &List<ParamKind>, universe: u64) -> (List<Param>, u64)
    decreases kinds,
{
    match kinds {
        List::Nil => (List::Nil, universe),
        List::Cons(k, rest) => {
            let u2 = if universe == u64::MAX {
                u64::MAX
            } else {
                (universe + 1) as u64
            };
            let (args, last) = spec_skolem_args(rest, u2);
            (
                List::Cons(
                    if *k is Lifetime {
                        Param::Lt(Lifetime::Skolem(u2))
                    } else {
                        Param::Ty(Ty::Skolem(u2))
                    },
                    Box::new(args),
                ),
                last,
            )
        },
    }
}

fn skolem_args(kinds: &List<ParamKind>, universe: u64) -> (r: (List<Param>, u64))
    ensures
        r == spec_skolem_args(kinds, universe),
    decreases kinds,
{
    match kinds {
        List::Nil => (List::Nil, universe),
        List::Cons(k, rest) => {
            let u2 = if universe == u64::MAX {
                u64::MAX
            } else {
                universe + 1
            };
            let (args, last) = skolem_args(rest, u2);
            (
                List::Cons(
                    if matches!(k, ParamKind::Lifetime) {
                        Param::Lt(Lifetime::Skolem(u2))
                    } else {
                        Param::Ty(Ty::Skolem(u2))
                    },
                    Box::new(args),
                ),
                last,
            )
        },
    }
}

/// Unify the head of an instantiated clause with the goal being solved.
pub open spec fn spec_match_heads(table: InferenceTable, goal: &DomainGoal, head: &DomainGoal) -> UnifyOutcome {
    match (goal, head) {
        (
            DomainGoal::Implemented { self_ty: t1, trait_id: id1, args: a1 },
            DomainGoal::Implemented { self_ty: t2, trait_id: id2, args: a2 },
        ) => {
            if id1 != id2 {
                UnifyOutcome::Fail
            } else {
                match spec_unify_param(table, Param::Ty(*t1), Param::Ty(*t2)) {
                    UnifyOutcome::Fail => UnifyOutcome::Fail,
                    UnifyOutcome::Unified { table: tb, constraints: c1 } => {
                        match spec_unify_params(tb, *a1, *a2) {
                            UnifyOutcome::Fail => UnifyOutcome::Fail,
                            UnifyOutcome::Unified { table: tc, constraints: c2 } => {
                                UnifyOutcome::Unified {
                                    table: tc,
                                    constraints: spec_append_constraints(&c1, &c2),
                                }
                            },
                        }
                    },
                }
            }
        },
        (
            DomainGoal::Normalize { assoc: p1, args: a1, output: o1 },
            DomainGoal::Normalize { assoc: p2, args: a2, output: o2 },
        ) => {
            if p1 != p2 {
                UnifyOutcome::Fail
            } else {
                match spec_unify_params(table, *a1, *a2) {
                    UnifyOutcome::Fail => UnifyOutcome::Fail,
                    UnifyOutcome::Unified { table: tb, constraints: c1 } => {
                        match spec_unify_param(tb, Param::Ty(*o1), Param::Ty(*o2)) {
                            UnifyOutcome::Fail => UnifyOutcome::Fail,
                            UnifyOutcome::Unified { table: tc, constraints: c2 } => {
                                UnifyOutcome::Unified {
                                    table: tc,
                                    constraints: spec_append_constraints(&c1, &c2),
                                }
                            },
                        }
                    },
                }
            }
        },
        (DomainGoal::WellFormed(t1), DomainGoal::WellFormed(t2)) => spec_unify_param(
            table,
            Param::Ty(*t1),
            Param::Ty(*t2),
        ),
        (DomainGoal::InScope(i1), DomainGoal::InScope(i2)) => if i1 == i2 {
            UnifyOutcome::Unified { table, constraints: List::Nil }
        } else {
            UnifyOutcome::Fail
        },
        _ => UnifyOutcome::Fail,
    }
}

fn match_heads(table: InferenceTable, goal: &DomainGoal, head: &DomainGoal) -> (r: UnifyOutcome)
    requires
        table.wf(),
    ensures
        r == spec_match_heads(table, goal, head),
        r matches UnifyOutcome::Unified { table: t2, .. } ==> t2.wf(),
{
    match (goal, head) {
        (
            DomainGoal::Implemented { self_ty: t1, trait_id: id1, args: a1 },
            DomainGoal::Implemented { self_ty: t2, trait_id: id2, args: a2 },
        ) => {
            if id1 != id2 {
                UnifyOutcome::Fail
            } else {
                match unify_param(table, &Param::Ty(clone_ty(t1)), &Param::Ty(clone_ty(t2))) {
                    UnifyOutcome::Fail => UnifyOutcome::Fail,
                    UnifyOutcome::Unified { table: tb, constraints: c1 } => {
                        match unify_params(tb, clone_params(a1), clone_params(a2)) {
                            UnifyOutcome::Fail => UnifyOutcome::Fail,
                            UnifyOutcome::Unified { table: tc, constraints: c2 } => {
                                UnifyOutcome::Unified {
                                    table: tc,
                                    constraints: append_constraints(c1, c2),
                                }
                            },
                        }
                    },
                }
            }
        },
        (
            DomainGoal::Normalize { assoc: p1, args: a1, output: o1 },
            DomainGoal::Normalize { assoc: p2, args: a2, output: o2 },
        ) => {
            if p1 != p2 {
                UnifyOutcome::Fail
            } else {
                match unify_params(table, clone_params(a1), clone_params(a2)) {
                    UnifyOutcome::Fail => UnifyOutcome::Fail,
                    UnifyOutcome::Unified { table: tb, constraints: c1 } => {
                        match unify_param(tb, &Param::Ty(clone_ty(o1)), &Param::Ty(clone_ty(o2))) {
                            UnifyOutcome::Fail => UnifyOutcome::Fail,
                            UnifyOutcome::Unified { table: tc, constraints: c2 } => {
                                UnifyOutcome::Unified {
                                    table: tc,
                                    constraints: append_constraints(c1, c2),
                                }
                            },
                        }
                    },
                }
            }
        },
        (DomainGoal::WellFormed(t1), DomainGoal::WellFormed(t2)) => unify_param(
            table,
            &Param::Ty(clone_ty(t1)),
            &Param::Ty(clone_ty(t2)),
        ),
        (DomainGoal::InScope(i1), DomainGoal::InScope(i2)) => if i1 == i2 {
            UnifyOutcome::Unified { table, constraints: List::Nil }
        } else {
            UnifyOutcome::Fail
        },
        _ => UnifyOutcome::Fail,
    }
}

/// The goal variable behind a canonical position, as a parameter of the
/// right kind.
pub open spec fn spec_var_as_param(table: &InferenceTable, v: u64) -> Param {
    match table_lookup(&table.vars, v) {
        Some(info) => if info.kind is Lifetime {
            Param::Lt(Lifetime::Var(v))
        } else {
            Param::Ty(Ty::Var(v))
        },
        None => Param::Ty(Ty::Var(v)),
    }
}

fn var_as_param(table: &InferenceTable, v: u64) -> (r: Param)
    ensures
        r == spec_var_as_param(table, v),
{
    match lookup_var(table, v) {
        Some(info) => if matches!(info.kind, ParamKind::Lifetime) {
            Param::Lt(Lifetime::Var(v))
        } else {
            Param::Ty(Ty::Var(v))
        },
        None => Param::Ty(Ty::Var(v)),
    }
}

/// Unify, pairwise, the goal's variables with the values an answer gives
/// them.
pub open spec fn spec_apply_pairs(table: InferenceTable, vars: &List<u64>, vals: &List<Param>) -> UnifyOutcome
    decreases table.unbound_count(), vars.len(),
{
    match (vars, vals) {
        (List::Nil, List::Nil) => UnifyOutcome::Unified { table, constraints: List::Nil },
        (List::Cons(v, vrest), List::Cons(p, prest)) => {
            let vp = spec_var_as_param(&table, *v);
            match spec_unify_param(table, vp, *p) {
                UnifyOutcome::Fail => UnifyOutcome::Fail,
                UnifyOutcome::Unified { table: t1, constraints: c1 } => {
                    if t1.unbound_count() < table.unbound_count() || t1.vars == table.vars {
                        match spec_apply_pairs(t1, vrest, prest) {
                            UnifyOutcome::Fail => UnifyOutcome::Fail,
                            UnifyOutcome::Unified { table: t2, constraints: c2 } => {
                                UnifyOutcome::Unified {
                                    table: t2,
                                    constraints: spec_append_constraints(&c1, &c2),
                                }
                            },
                        }
                    } else {
                        UnifyOutcome::Fail
                    }
                },
            }
        },
        _ => UnifyOutcome::Fail,
    }
}

fn apply_pairs(table: InferenceTable, vars: &List<u64>, vals: &List<Param>) -> (r: UnifyOutcome)
    requires
        table.wf(),
    ensures
        r == spec_apply_pairs(table, vars, vals),
        r matches UnifyOutcome::Unified { table: t2, .. } ==> t2.wf(),
    decreases table.unbound_count(), vars.len(),
{
    match (vars, vals) {
        (List::Nil, List::Nil) => UnifyOutcome::Unified { table, constraints: List::Nil },
        (List::Cons(v, vrest), List::Cons(p, prest)) => {
            let vp = var_as_param(&table, *v);
            let ghost t0 = table;
            match unify_param(table, &vp, p) {
                UnifyOutcome::Fail => UnifyOutcome::Fail,
                UnifyOutcome::Unified { table: t1, constraints: c1 } => {
                    proof {
                        assert(t1.unbound_count() < t0.unbound_count() || t1.vars == t0.vars);
                    }
                    match apply_pairs(t1, vrest, prest) {
                        UnifyOutcome::Fail => UnifyOutcome::Fail,
                        UnifyOutcome::Unified { table: t2, constraints: c2 } => {
                            UnifyOutcome::Unified {
                                table: t2,
                                constraints: append_constraints(c1, c2),
                            }
                        },
                    }
                },
            }
        },
        _ => UnifyOutcome::Fail,
    }
}

// Hit lists: the depths of every stack frame a cycle pointed at.

pub open spec fn spec_append_hits(a: &List<u64>, b: &List<u64>) -> List<u64>
    decreases a,
{
    match a {
        List::Nil => *b,
        List::Cons(x, rest) => List::Cons(*x, Box::new(spec_append_hits(rest, b))),
    }
}

fn append_hits(a: List<u64>, b: List<u64>) -> (r: List<u64>)
    ensures
        r == spec_append_hits(&a, &b),
    decreases a,
{
    match a {
        List::Nil => b,
        List::Cons(x, rest) => List::Cons(x, Box::new(append_hits(*rest, b))),
    }
}

/// Keep only hits on frames strictly below `depth`.
pub open spec fn spec_hits_below(l: &List<u64>, depth: u64) -> List<u64>
    decreases l,
{
    match l {
        List::Nil => List::Nil,
        List::Cons(x, rest) => if *x < depth {
            List::Cons(*x, Box::new(spec_hits_below(rest, depth)))
        } else {
            spec_hits_below(rest, depth)
        },
    }
}

fn hits_below(l: &List<u64>, depth: u64) -> (r: List<u64>)
    ensures
        r == spec_hits_below(l, depth),
    decreases l,
{
    match l {
        List::Nil => List::Nil,
        List::Cons(x, rest) => if *x < depth {
            List::Cons(*x, Box::new(hits_below(rest, depth)))
        } else {
            hits_below(rest, depth)
        },
    }
}

pub open spec fn spec_append_clause_lists(a: &List<Clause>, b: &List<Clause>) -> List<Clause>
    decreases a,
{
    match a {
        List::Nil => *b,
        List::Cons(x, rest) => List::Cons(*x, Box::new(spec_append_clause_lists(rest, b))),
    }
}

fn append_clause_lists(a: List<Clause>, b: List<Clause>) -> (r: List<Clause>)
    ensures
        r == spec_append_clause_lists(&a, &b),
    decreases a,
{
    match a {
        List::Nil => b,
        List::Cons(x, rest) => List::Cons(x, Box::new(append_clause_lists(*rest, b))),
    }
}

/// How two candidate answers for one goal combine: a failure yields to the
/// other side; equal solutions merge; equal refined goals with different
/// confidence stay as an ambiguous version of that refined goal; anything
/// else is ambiguity with no inference guidance.
pub open spec fn spec_combine_answers(key: &CanonicalGoal, a: Answer, b: Answer) -> Answer {
    match (a, b) {
        (Answer::Overflowed, _) => Answer::Overflowed,
        (_, Answer::Overflowed) => Answer::Overflowed,
        (Answer::NoSolution, x) => x,
        (x, Answer::NoSolution) => x,
        (Answer::Found(s1), Answer::Found(s2)) => if s1 == s2 {
            Answer::Found(s1)
        } else if s1.refined_goal.binders == s2.refined_goal.binders
            && s1.refined_goal.value.value == s2.refined_goal.value.value
            && s1.refined_goal.value.constraints == s2.refined_goal.value.constraints {
            Answer::Found(
                Solution { successful: Successful::Maybe, refined_goal: s1.refined_goal },
            )
        } else {
            Answer::Found(spec_identity_solution(key, Successful::Maybe))
        },
    }
}

fn combine_answers(key: &CanonicalGoal, a: Answer, b: Answer) -> (r: Answer)
    ensures
        r == spec_combine_answers(key, a, b),
{
    match (a, b) {
        (Answer::Overflowed, _) => Answer::Overflowed,
        (_, Answer::Overflowed) => Answer::Overflowed,
        (Answer::NoSolution, x) => x,
        (x, Answer::NoSolution) => x,
        (Answer::Found(s1), Answer::Found(s2)) => if solution_eq(&s1, &s2) {
            Answer::Found(s1)
        } else if binders_eq(&s1.refined_goal.binders, &s2.refined_goal.binders) && params_eq(
            &s1.refined_goal.value.value,
            &s2.refined_goal.value.value,
        ) && constraints_eq(
            &s1.refined_goal.value.constraints,
            &s2.refined_goal.value.constraints,
        ) {
            Answer::Found(
                Solution { successful: Successful::Maybe, refined_goal: s1.refined_goal },
            )
        } else {
            Answer::Found(identity_solution(key, Successful::Maybe))
        },
    }
}

/// The result of walking the candidate clauses for one goal.
pub struct ClausesResult {
    pub ans: Answer,
    pub hits: List<u64>,
    pub tables: List<AnswerTable>,
}

// Looking up and recording completed answer tables.

pub open spec fn spec_find_table(tables: &List<AnswerTable>, key: &CanonicalGoal) -> Option<Answer>
    decreases tables,
{
    match tables {
        List::Nil => None,
        List::Cons(t, rest) => if t.key == *key {
            Some(t.answer)
        } else {
            spec_find_table(rest, key)
        },
    }
}

fn find_table(tables: &List<AnswerTable>, key: &CanonicalGoal) -> (r: Option<Answer>)
    ensures
        r == spec_find_table(tables, key),
    decreases tables,
{
    match tables {
        List::Nil => None,
        List::Cons(t, rest) => if key_eq(&t.key, key) {
            Some(clone_answer(&t.answer))
        } else {
            find_table(rest, key)
        },
    }
}

/// Record a finished answer, when the memoizing strategy is on and the
/// answer did not depend on any frame still on the stack.
pub open spec fn spec_store_table(
    tab: bool,
    tables: List<AnswerTable>,
    key: &CanonicalGoal,
    ans: &Answer,
    out: &List<u64>,
) -> List<AnswerTable> {
    if tab && out is Nil && !(ans is Overflowed) {
        List::Cons(AnswerTable { key: *key, answer: *ans }, Box::new(tables))
    } else {
        tables
    }
}

fn store_table(
    tab: bool,
    tables: List<AnswerTable>,
    key: &CanonicalGoal,
    ans: &Answer,
    out: &List<u64>,
) -> (r: List<AnswerTable>)
    ensures
        r == spec_store_table(tab, tables, key, ans, out),
{
    let empty_out = matches!(out, List::Nil);
    let overflowed = matches!(ans, Answer::Overflowed);
    if tab && empty_out && !overflowed {
        List::Cons(AnswerTable { key: clone_key(key), answer: clone_answer(ans) }, Box::new(tables))
    } else {
        tables
    }
}

// The solver proper: six mutually recursive functions.  Termination is
// by the fuel first; within one fuel level, by a rank that orders the
// functions, then by the size of the goal at hand, then by the iteration
// budget.

/// The answer a negation gives, from the attempt on its inner goal: the
/// caller's store is never changed by a negation.
pub open spec fn spec_invert(table: InferenceTable, r: GoalResult) -> GoalResult {
    match r.outcome {
        GoalOutcome::Overflowed => GoalResult {
            outcome: GoalOutcome::Overflowed,
            table,
            constraints: List::Nil,
            hit: r.hit,
            tables: r.tables,
        },
        GoalOutcome::NoSolution => GoalResult {
            outcome: GoalOutcome::Success(Successful::Yes),
            table,
            constraints: List::Nil,
            hit: r.hit,
            tables: r.tables,
        },
        GoalOutcome::Success(s) => if s is Yes && r.constraints is Nil {
            GoalResult {
                outcome: GoalOutcome::NoSolution,
                table,
                constraints: List::Nil,
                hit: r.hit,
                tables: r.tables,
            }
        } else {
            GoalResult {
                outcome: GoalOutcome::Success(Successful::Maybe),
                table,
                constraints: List::Nil,
                hit: r.hit,
                tables: r.tables,
            }
        },
    }
}

fn invert_result(table: InferenceTable, r: GoalResult) -> (res: GoalResult)
    requires
        table.wf(),
    ensures
        res == spec_invert(table, r),
        res.table.wf(),
{
    match r.outcome {
        GoalOutcome::Overflowed => GoalResult {
            outcome: GoalOutcome::Overflowed,
            table,
            constraints: List::Nil,
            hit: r.hit,
            tables: r.tables,
        },
        GoalOutcome::NoSolution => GoalResult {
            outcome: GoalOutcome::Success(Successful::Yes),
            table,
            constraints: List::Nil,
            hit: r.hit,
            tables: r.tables,
        },
        GoalOutcome::Success(s) => {
            let empty = matches!(&r.constraints, List::Nil);
            if matches!(s, Successful::Yes) && empty {
                GoalResult {
                    outcome: GoalOutcome::NoSolution,
                    table,
                    constraints: List::Nil,
                    hit: r.hit,
                    tables: r.tables,
                }
            } else {
                GoalResult {
                    outcome: GoalOutcome::Success(Successful::Maybe),
                    table,
                    constraints: List::Nil,
                    hit: r.hit,
                    tables: r.tables,
                }
            }
        },
    }
}

/// Negation as failure, on an already resolved goal.  A free inference
/// variable makes the negation ambiguous.  A universal placeholder is
/// reopened as a fresh existential before the attempt, since an
/// instantiation of the universal could prove the inner goal; plain
/// failure decides the negation only for goals with neither.
pub open spec fn spec_negate_goal(
    pr: &Program,
    env: &Environment,
    table: InferenceTable,
    stack: &List<StackEntry>,
    rg: &Goal,
    fuel: u64,
    tab: bool,
    tables: List<AnswerTable>,
) -> GoalResult
    decreases fuel, 3int, rg.size(), 1nat,
{
    if has_vars_goal(rg) {
        GoalResult {
            outcome: GoalOutcome::Success(Successful::Maybe),
            table,
            constraints: List::Nil,
            hit: List::Nil,
            tables,
        }
    } else if !has_skolems_goal(rg) {
        spec_invert(table, spec_solve_goal(pr, env, table, stack, rg, fuel, tab, tables))
    } else {
        let sk = spec_collect_sk_goal(rg, SkolemAcc { tys: List::Nil, lts: List::Nil });
        match spec_make_sk_vars(table, &sk.tys, ParamKind::Ty, env.universe) {
            None => GoalResult {
                outcome: GoalOutcome::Overflowed,
                table,
                constraints: List::Nil,
                hit: List::Nil,
                tables,
            },
            Some((t2, tyids)) => match spec_make_sk_vars(
                t2,
                &sk.lts,
                ParamKind::Lifetime,
                env.universe,
            ) {
                None => GoalResult {
                    outcome: GoalOutcome::Overflowed,
                    table,
                    constraints: List::Nil,
                    hit: List::Nil,
                    tables,
                },
                Some((t3, ltids)) => {
                    let ge = spec_reopen_goal(rg, &sk.tys, &tyids, &sk.lts, &ltids);
                    proof {
                        lemma_reopen_goal_size(rg, &sk.tys, &tyids, &sk.lts, &ltids);
                    }
                    spec_invert(
                        table,
                        spec_solve_goal(pr, env, t3, stack, &ge, fuel, tab, tables),
                    )
                },
            },
        }
    }
}

fn negate_goal(
    pr: &Program,
    env: &Environment,
    table: InferenceTable,
    stack: &List<StackEntry>,
    rg: &Goal,
    fuel: u64,
    tab: bool,
    tables: List<AnswerTable>,
) -> (r: GoalResult)
    requires
        table.wf(),
    ensures
        r == spec_negate_goal(pr, env, table, stack, rg, fuel, tab, tables),
        r.table.wf(),
    decreases fuel, 3int, rg.size(), 1nat,
{
    if goal_vars(rg) {
        GoalResult {
            outcome: GoalOutcome::Success(Successful::Maybe),
            table,
            constraints: List::Nil,
            hit: List::Nil,
            tables,
        }
    } else if !goal_skolems(rg) {
        let inner = clone_table(&table);
        let r = solve_goal(pr, env, inner, stack, rg, fuel, tab, tables);
        invert_result(table, r)
    } else {
        let sk = collect_sk_goal(rg, SkolemAcc { tys: List::Nil, lts: List::Nil });
        match make_sk_vars(clone_table(&table), &sk.tys, ParamKind::Ty, env.universe) {
            None => GoalResult {
                outcome: GoalOutcome::Overflowed,
                table,
                constraints: List::Nil,
                hit: List::Nil,
                tables,
            },
            Some((t2, tyids)) => match make_sk_vars(t2, &sk.lts, ParamKind::Lifetime, env.universe) {
                None => GoalResult {
                    outcome: GoalOutcome::Overflowed,
                    table,
                    constraints: List::Nil,
                    hit: List::Nil,
                    tables,
                },
                Some((t3, ltids)) => {
                    let ge = reopen_goal(rg, &sk.tys, &tyids, &sk.lts, &ltids);
                    proof {
                        lemma_reopen_goal_size(rg, &sk.tys, &tyids, &sk.lts, &ltids);
                    }
                    let r = solve_goal(pr, env, t3, stack, &ge, fuel, tab, tables);
                    invert_result(table, r)
                },
            },
        }
    }
}

/// Solve one goal in an environment, threading the store and the answer
/// tables.
pub open spec fn spec_solve_goal(
    pr: &Program,
    env: &Environment,
    table: InferenceTable,
    stack: &List<StackEntry>,
    g: &Goal,
    fuel: u64,
    tab: bool,
    tables: List<AnswerTable>,
) -> GoalResult
    decreases fuel, 3int, g.size(), 0nat,
{
    match g {
        Goal::Leaf(d) => match d {
            DomainGoal::Equals(x, y) => match spec_unify_param(table, *x, *y) {
                UnifyOutcome::Fail => GoalResult {
                    outcome: GoalOutcome::NoSolution,
                    table,
                    constraints: List::Nil,
                    hit: List::Nil,
                    tables,
                },
                UnifyOutcome::Unified { table: t2, constraints } => GoalResult {
                    outcome: GoalOutcome::Success(Successful::Yes),
                    table: t2,
                    constraints,
                    hit: List::Nil,
                    tables,
                },
            },
            _ => {
                let ck = spec_canonicalize_key(&table, env, d);
                let cr = spec_solve_canonical(pr, stack, &ck.key, fuel, tab, tables);
                spec_apply_answer(env, table, &ck, cr)
            },
        },
        Goal::And(x, y) => {
            let r1 = spec_solve_goal(pr, env, table, stack, x, fuel, tab, tables);
            match r1.outcome {
                GoalOutcome::Success(s1) => {
                    let r2 = spec_solve_goal(pr, env, r1.table, stack, y, fuel, tab, r1.tables);
                    match r2.outcome {
                        GoalOutcome::Success(s2) => GoalResult {
                            outcome: GoalOutcome::Success(
                                if s1 is Yes && s2 is Yes {
                                    Successful::Yes
                                } else {
                                    Successful::Maybe
                                },
                            ),
                            table: r2.table,
                            constraints: spec_append_constraints(&r1.constraints, &r2.constraints),
                            hit: spec_append_hits(&r1.hit, &r2.hit),
                            tables: r2.tables,
                        },
                        GoalOutcome::NoSolution => GoalResult {
                            outcome: GoalOutcome::NoSolution,
                            table: r2.table,
                            constraints: List::Nil,
                            hit: spec_append_hits(&r1.hit, &r2.hit),
                            tables: r2.tables,
                        },
                        GoalOutcome::Overflowed => GoalResult {
                            outcome: GoalOutcome::Overflowed,
                            table: r2.table,
                            constraints: List::Nil,
                            hit: spec_append_hits(&r1.hit, &r2.hit),
                            tables: r2.tables,
                        },
                    }
                },
                _ => r1,
            }
        },
        Goal::Or(x, y) => {
            let r1 = spec_solve_goal(pr, env, table, stack, x, fuel, tab, tables);
            match r1.outcome {
                GoalOutcome::Overflowed => r1,
                _ => {
                    let r2 = spec_solve_goal(pr, env, table, stack, y, fuel, tab, r1.tables);
                    match (r1.outcome, r2.outcome) {
                        (_, GoalOutcome::Overflowed) => GoalResult {
                            outcome: GoalOutcome::Overflowed,
                            table: r2.table,
                            constraints: List::Nil,
                            hit: spec_append_hits(&r1.hit, &r2.hit),
                            tables: r2.tables,
                        },
                        (GoalOutcome::Success(s1), GoalOutcome::NoSolution) => GoalResult {
                            outcome: GoalOutcome::Success(s1),
                            table: r1.table,
                            constraints: r1.constraints,
                            hit: spec_append_hits(&r1.hit, &r2.hit),
                            tables: r2.tables,
                        },
                        (GoalOutcome::NoSolution, GoalOutcome::Success(s2)) => GoalResult {
                            outcome: GoalOutcome::Success(s2),
                            table: r2.table,
                            constraints: r2.constraints,
                            hit: spec_append_hits(&r1.hit, &r2.hit),
                            tables: r2.tables,
                        },
                        (GoalOutcome::NoSolution, GoalOutcome::NoSolution) => GoalResult {
                            outcome: GoalOutcome::NoSolution,
                            table,
                            constraints: List::Nil,
                            hit: spec_append_hits(&r1.hit, &r2.hit),
                            tables: r2.tables,
                        },
                        _ => GoalResult {
                            outcome: GoalOutcome::Success(Successful::Maybe),
                            table,
                            constraints: List::Nil,
                            hit: spec_append_hits(&r1.hit, &r2.hit),
                            tables: r2.tables,
                        },
                    }
                },
            }
        },
        Goal::Implies(h, g2) => {
            let env2 = Environment {
                clauses: spec_append_clause_lists(h, &env.clauses),
                universe: env.universe,
            };
            spec_solve_goal(pr, &env2, table, stack, g2, fuel, tab, tables)
        },
        Goal::Not(g2) => {
            let rg = spec_resolve_goal(&table.vars, g2);
            proof {
                lemma_resolve_goal_size(&table.vars, g2);
            }
            spec_negate_goal(pr, env, table, stack, &rg, fuel, tab, tables)
        },
        Goal::Quantified(q, kinds, g2) => {
            if *q is ForAll {
                let (args, last) = spec_skolem_args(kinds, env.universe);
                let g2p = spec_inst_goal(g2, 0, &args);
                proof {
                    lemma_inst_goal_size(g2, 0, &args);
                }
                let env2 = Environment { clauses: env.clauses, universe: last };
                spec_solve_goal(pr, &env2, table, stack, &g2p, fuel, tab, tables)
            } else {
                match spec_make_kind_vars(table, kinds, env.universe) {
                    None => GoalResult {
                        outcome: GoalOutcome::Overflowed,
                        table,
                        constraints: List::Nil,
                        hit: List::Nil,
                        tables,
                    },
                    Some((t2, args)) => {
                        let g2p = spec_inst_goal(g2, 0, &args);
                        proof {
                            lemma_inst_goal_size(g2, 0, &args);
                        }
                        spec_solve_goal(pr, env, t2, stack, &g2p, fuel, tab, tables)
                    },
                }
            }
        },
    }
}

/// Read a canonical answer back into the caller's store.
pub open spec fn spec_apply_answer(
    env: &Environment,
    table: InferenceTable,
    ck: &CanonKey,
    cr: CanonResult,
) -> GoalResult {
    match cr.ans {
        Answer::Overflowed => GoalResult {
            outcome: GoalOutcome::Overflowed,
            table,
            constraints: List::Nil,
            hit: cr.hit,
            tables: cr.tables,
        },
        Answer::NoSolution => GoalResult {
            outcome: GoalOutcome::NoSolution,
            table,
            constraints: List::Nil,
            hit: cr.hit,
            tables: cr.tables,
        },
        Answer::Found(sol) => {
            match spec_make_binder_vars(table, &sol.refined_goal.binders, &ck.umap, env.universe) {
                None => GoalResult {
                    outcome: GoalOutcome::Overflowed,
                    table,
                    constraints: List::Nil,
                    hit: cr.hit,
                    tables: cr.tables,
                },
                Some((t2, ids)) => {
                    let vals = spec_decanon_params(
                        &sol.refined_goal.value.value,
                        &ids,
                        &ck.umap,
                        env.universe,
                    );
                    let cons = spec_decanon_constraints(
                        &sol.refined_goal.value.constraints,
                        &ids,
                        &ck.umap,
                        env.universe,
                    );
                    match spec_apply_pairs(t2, &ck.vmap, &vals) {
                        UnifyOutcome::Fail => GoalResult {
                            outcome: GoalOutcome::NoSolution,
                            table,
                            constraints: List::Nil,
                            hit: cr.hit,
                            tables: cr.tables,
                        },
                        UnifyOutcome::Unified { table: t3, constraints: cs } => GoalResult {
                            outcome: GoalOutcome::Success(sol.successful),
                            table: t3,
                            constraints: spec_append_constraints(&cons, &cs),
                            hit: cr.hit,
                            tables: cr.tables,
                        },
                    }
                },
            }
        },
    }
}

/// Solve a conjunction of goals left to right.
pub open spec fn spec_fulfill(
    pr: &Program,
    env: &Environment,
    table: InferenceTable,
    stack: &List<StackEntry>,
    goals: &List<Goal>,
    fuel: u64,
    tab: bool,
    tables: List<AnswerTable>,
) -> GoalResult
    decreases fuel, 3int, crate::ir::goal_list_size(goals), 0nat,
{
    match goals {
        List::Nil => GoalResult {
            outcome: GoalOutcome::Success(Successful::Yes),
            table,
            constraints: List::Nil,
            hit: List::Nil,
            tables,
        },
        List::Cons(g, rest) => {
            let r1 = spec_solve_goal(pr, env, table, stack, g, fuel, tab, tables);
            match r1.outcome {
                GoalOutcome::Success(s1) => {
                    let r2 = spec_fulfill(pr, env, r1.table, stack, rest, fuel, tab, r1.tables);
                    match r2.outcome {
                        GoalOutcome::Success(s2) => GoalResult {
                            outcome: GoalOutcome::Success(
                                if s1 is Yes && s2 is Yes {
                                    Successful::Yes
                                } else {
                                    Successful::Maybe
                                },
                            ),
                            table: r2.table,
                            constraints: spec_append_constraints(&r1.constraints, &r2.constraints),
                            hit: spec_append_hits(&r1.hit, &r2.hit),
                            tables: r2.tables,
                        },
                        GoalOutcome::NoSolution => GoalResult {
                            outcome: GoalOutcome::NoSolution,
                            table: r2.table,
                            constraints: List::Nil,
                            hit: spec_append_hits(&r1.hit, &r2.hit),
                            tables: r2.tables,
                        },
                        GoalOutcome::Overflowed => GoalResult {
                            outcome: GoalOutcome::Overflowed,
                            table: r2.table,
                            constraints: List::Nil,
                            hit: spec_append_hits(&r1.hit, &r2.hit),
                            tables: r2.tables,
                        },
                    }
                },
                _ => r1,
            }
        },
    }
}

/// Solve a canonicalized leaf goal: replay a completed table, detect a
/// cycle through the stack, or run the search to a fixed point.
pub open spec fn spec_solve_canonical(
    pr: &Program,
    stack: &List<StackEntry>,
    key: &CanonicalGoal,
    fuel: u64,
    tab: bool,
    tables: List<AnswerTable>,
) -> CanonResult
    decreases fuel, 2int, 1nat, 0nat,
{
    match spec_find_cycle(stack, key) {
        Some(ci) => if ci.coinductive {
            CanonResult {
                ans: Answer::Found(spec_identity_solution(key, Successful::Yes)),
                hit: List::Cons(ci.depth, Box::new(List::Nil)),
                tables,
            }
        } else {
            CanonResult {
                ans: ci.assumption,
                hit: List::Cons(ci.depth, Box::new(List::Nil)),
                tables,
            }
        },
        None => {
            if tab && spec_find_table(&tables, key) is Some {
                CanonResult {
                    ans: spec_find_table(&tables, key)->Some_0,
                    hit: List::Nil,
                    tables,
                }
            } else if fuel == 0 {
                CanonResult { ans: Answer::Overflowed, hit: List::Nil, tables }
            } else {
                spec_iterate(
                    pr,
                    stack,
                    key,
                    spec_is_coinductive(pr, &key.goal),
                    spec_stack_len(stack),
                    Answer::NoSolution,
                    fuel,
                    fuel,
                    tab,
                    tables,
                )
            }
        },
    }
}

/// One round of proving a goal under the current assumption for it,
/// repeated until the answer stops changing; ambiguity is terminal.  A
/// settled answer that hit no outer frame is recorded as a table.
pub open spec fn spec_iterate(
    pr: &Program,
    stack: &List<StackEntry>,
    key: &CanonicalGoal,
    coind: bool,
    depth: u64,
    assumption: Answer,
    fuel: u64,
    budget: u64,
    tab: bool,
    tables: List<AnswerTable>,
) -> CanonResult
    decreases fuel, 2int, 0nat, budget as nat,
{
    if fuel == 0 || budget == 0 {
        CanonResult { ans: Answer::Overflowed, hit: List::Nil, tables }
    } else {
        let entry = StackEntry { key: *key, coinductive: coind, assumption, depth };
        let stack2 = List::Cons(entry, Box::new(*stack));
        let tr = spec_try_clauses(pr, key, &key.clauses, &stack2, (fuel - 1) as u64, tab, tables);
        let out = spec_hits_below(&tr.hits, depth);
        match tr.ans {
            Answer::Overflowed => CanonResult { ans: Answer::Overflowed, hit: out, tables: tr.tables },
            _ => {
                if !spec_contains_u64(&tr.hits, depth) {
                    CanonResult {
                        ans: tr.ans,
                        hit: out,
                        tables: spec_store_table(tab, tr.tables, key, &tr.ans, &out),
                    }
                } else if tr.ans == assumption {
                    CanonResult {
                        ans: tr.ans,
                        hit: out,
                        tables: spec_store_table(tab, tr.tables, key, &tr.ans, &out),
                    }
                } else if (tr.ans matches Answer::Found(s) && s.successful is Maybe) {
                    CanonResult {
                        ans: tr.ans,
                        hit: out,
                        tables: spec_store_table(tab, tr.tables, key, &tr.ans, &out),
                    }
                } else {
                    let nxt = spec_iterate(
                        pr,
                        stack,
                        key,
                        coind,
                        depth,
                        tr.ans,
                        fuel,
                        (budget - 1) as u64,
                        tab,
                        tr.tables,
                    );
                    CanonResult {
                        ans: nxt.ans,
                        hit: spec_append_hits(&out, &nxt.hit),
                        tables: nxt.tables,
                    }
                }
            },
        }
    }
}

/// Walk the candidate clauses for a goal and combine their answers.
pub open spec fn spec_try_clauses(
    pr: &Program,
    key: &CanonicalGoal,
    rem: &List<Clause>,
    stack2: &List<StackEntry>,
    fuel: u64,
    tab: bool,
    tables: List<AnswerTable>,
) -> ClausesResult
    decreases fuel, 5int, rem.len(), 0nat,
{
    match rem {
        List::Nil => ClausesResult { ans: Answer::NoSolution, hits: List::Nil, tables },
        List::Cons(c, rest) => {
            let cand = spec_eval_candidate(pr, key, c, stack2, fuel, tab, tables);
            match cand.ans {
                Answer::Overflowed => ClausesResult {
                    ans: Answer::Overflowed,
                    hits: cand.hits,
                    tables: cand.tables,
                },
                _ => {
                    let restr = spec_try_clauses(pr, key, rest, stack2, fuel, tab, cand.tables);
                    match restr.ans {
                        Answer::Overflowed => ClausesResult {
                            ans: Answer::Overflowed,
                            hits: spec_append_hits(&cand.hits, &restr.hits),
                            tables: restr.tables,
                        },
                        _ => ClausesResult {
                            ans: spec_combine_answers(key, cand.ans, restr.ans),
                            hits: spec_append_hits(&cand.hits, &restr.hits),
                            tables: restr.tables,
                        },
                    }
                },
            }
        },
    }
}

/// Try one clause: open its binder with fresh variables, unify its head
/// with the goal, prove its body, and canonicalize the result.
pub open spec fn spec_eval_candidate(
    pr: &Program,
    key: &CanonicalGoal,
    c: &Clause,
    stack2: &List<StackEntry>,
    fuel: u64,
    tab: bool,
    tables: List<AnswerTable>,
) -> ClausesResult
    decreases fuel, 4int, 0nat, 0nat,
{
    match spec_build_table(&key.binders) {
        None => ClausesResult { ans: Answer::Overflowed, hits: List::Nil, tables },
        Some(t0) => match spec_make_kind_vars(t0, &c.binders, key.universe) {
            None => ClausesResult { ans: Answer::Overflowed, hits: List::Nil, tables },
            Some((t1, args)) => {
                let head = spec_inst_domain(&c.head, 0, &args);
                let body = spec_inst_goals(&c.body, 0, &args);
                match spec_match_heads(t1, &key.goal, &head) {
                    UnifyOutcome::Fail => ClausesResult {
                        ans: Answer::NoSolution,
                        hits: List::Nil,
                        tables,
                    },
                    UnifyOutcome::Unified { table: t2, constraints: cs } => {
                        if !t2.wf() {
                            ClausesResult { ans: Answer::NoSolution, hits: List::Nil, tables }
                        } else {
                            let env2 = Environment {
                                clauses: key.clauses,
                                universe: key.universe,
                            };
                            let fr = spec_fulfill(pr, &env2, t2, stack2, &body, fuel, tab, tables);
                            match fr.outcome {
                                GoalOutcome::Overflowed => ClausesResult {
                                    ans: Answer::Overflowed,
                                    hits: fr.hit,
                                    tables: fr.tables,
                                },
                                GoalOutcome::NoSolution => ClausesResult {
                                    ans: Answer::NoSolution,
                                    hits: fr.hit,
                                    tables: fr.tables,
                                },
                                GoalOutcome::Success(s) => ClausesResult {
                                    ans: Answer::Found(
                                        spec_canonicalize_answer(
                                            &fr.table,
                                            spec_binders_len(&key.binders),
                                            s,
                                            &spec_append_constraints(&cs, &fr.constraints),
                                        ),
                                    ),
                                    hits: fr.hit,
                                    tables: fr.tables,
                                },
                            }
                        }
                    },
                }
            },
        },
    }
}

// Executable mirrors of the solver.

pub fn solve_goal(
    pr: &Program,
    env: &Environment,
    table: InferenceTable,
    stack: &List<StackEntry>,
    g: &Goal,
    fuel: u64,
    tab: bool,
    tables: List<AnswerTable>,
) -> (r: GoalResult)
    requires
        table.wf(),
    ensures
        r == spec_solve_goal(pr, env, table, stack, g, fuel, tab, tables),
        r.table.wf(),
    decreases fuel, 3int, g.size(), 0nat,
{
    match g {
        Goal::Leaf(d) => match d {
            DomainGoal::Equals(x, y) => {
                let backup = clone_table(&table);
                match unify_param(table, x, y) {
                    UnifyOutcome::Fail => GoalResult {
                        outcome: GoalOutcome::NoSolution,
                        table: backup,
                        constraints: List::Nil,
                        hit: List::Nil,
                        tables,
                    },
                    UnifyOutcome::Unified { table: t2, constraints } => GoalResult {
                        outcome: GoalOutcome::Success(Successful::Yes),
                        table: t2,
                        constraints,
                        hit: List::Nil,
                        tables,
                    },
                }
            },
            _ => {
                let ck = canonicalize_key(&table, env, d);
                let cr = solve_canonical(pr, stack, &ck.key, fuel, tab, tables);
                apply_answer(env, table, &ck, cr)
            },
        },
        Goal::And(x, y) => {
            let r1 = solve_goal(pr, env, table, stack, x, fuel, tab, tables);
            match r1.outcome {
                GoalOutcome::Success(s1) => {
                    let r2 = solve_goal(pr, env, r1.table, stack, y, fuel, tab, r1.tables);
                    match r2.outcome {
                        GoalOutcome::Success(s2) => GoalResult {
                            outcome: GoalOutcome::Success(s1.and(s2)),
                            table: r2.table,
                            constraints: append_constraints(r1.constraints, r2.constraints),
                            hit: append_hits(r1.hit, r2.hit),
                            tables: r2.tables,
                        },
                        GoalOutcome::NoSolution => GoalResult {
                            outcome: GoalOutcome::NoSolution,
                            table: r2.table,
                            constraints: List::Nil,
                            hit: append_hits(r1.hit, r2.hit),
                            tables: r2.tables,
                        },
                        GoalOutcome::Overflowed => GoalResult {
                            outcome: GoalOutcome::Overflowed,
                            table: r2.table,
                            constraints: List::Nil,
                            hit: append_hits(r1.hit, r2.hit),
                            tables: r2.tables,
                        },
                    }
                },
                _ => r1,
            }
        },
        Goal::Or(x, y) => {
            let b1 = clone_table(&table);
            let b2 = clone_table(&table);
            let r1 = solve_goal(pr, env, table, stack, x, fuel, tab, tables);
            match r1.outcome {
                GoalOutcome::Overflowed => r1,
                _ => {
                    let r2 = solve_goal(pr, env, b1, stack, y, fuel, tab, r1.tables);
                    match (r1.outcome, r2.outcome) {
                        (_, GoalOutcome::Overflowed) => GoalResult {
                            outcome: GoalOutcome::Overflowed,
                            table: r2.table,
                            constraints: List::Nil,
                            hit: append_hits(r1.hit, r2.hit),
                            tables: r2.tables,
                        },
                        (GoalOutcome::Success(s1), GoalOutcome::NoSolution) => GoalResult {
                            outcome: GoalOutcome::Success(s1),
                            table: r1.table,
                            constraints: r1.constraints,
                            hit: append_hits(r1.hit, r2.hit),
                            tables: r2.tables,
                        },
                        (GoalOutcome::NoSolution, GoalOutcome::Success(s2)) => GoalResult {
                            outcome: GoalOutcome::Success(s2),
                            table: r2.table,
                            constraints: r2.constraints,
                            hit: append_hits(r1.hit, r2.hit),
                            tables: r2.tables,
                        },
                        (GoalOutcome::NoSolution, GoalOutcome::NoSolution) => GoalResult {
                            outcome: GoalOutcome::NoSolution,
                            table: b2,
                            constraints: List::Nil,
                            hit: append_hits(r1.hit, r2.hit),
                            tables: r2.tables,
                        },
                        _ => GoalResult {
                            outcome: GoalOutcome::Success(Successful::Maybe),
                            table: b2,
                            constraints: List::Nil,
                            hit: append_hits(r1.hit, r2.hit),
                            tables: r2.tables,
                        },
                    }
                },
            }
        },
        Goal::Implies(h, g2) => {
            let env2 = Environment {
                clauses: append_clause_lists(clone_clauses(h), clone_clauses(&env.clauses)),
                universe: env.universe,
            };
            solve_goal(pr, &env2, table, stack, g2, fuel, tab, tables)
        },
        Goal::Not(g2) => {
            let rg = resolve_goal(&table, g2);
            proof {
                lemma_resolve_goal_size(&table.vars, g2);
            }
            negate_goal(pr, env, table, stack, &rg, fuel, tab, tables)
        },
        Goal::Quantified(q, kinds, g2) => {
            if matches!(q, QuantifierKind::ForAll) {
                let (args, last) = skolem_args(kinds, env.universe);
                let g2p = inst_goal(g2, 0, &args);
                proof {
                    lemma_inst_goal_size(g2, 0, &args);
                }
                let env2 = Environment { clauses: clone_clauses(&env.clauses), universe: last };
                solve_goal(pr, &env2, table, stack, &g2p, fuel, tab, tables)
            } else {
                let backup = clone_table(&table);
                match make_kind_vars(table, kinds, env.universe) {
                    None => GoalResult {
                        outcome: GoalOutcome::Overflowed,
                        table: backup,
                        constraints: List::Nil,
                        hit: List::Nil,
                        tables,
                    },
                    Some((t2, args)) => {
                        let g2p = inst_goal(g2, 0, &args);
                        proof {
                            lemma_inst_goal_size(g2, 0, &args);
                        }
                        solve_goal(pr, env, t2, stack, &g2p, fuel, tab, tables)
                    },
                }
            }
        },
    }
}

fn apply_answer(env: &Environment, table: InferenceTable, ck: &CanonKey, cr: CanonResult) -> (r:
    GoalResult)
    requires
        table.wf(),
    ensures
        r == spec_apply_answer(env, table, ck, cr),
        r.table.wf(),
{
    match cr.ans {
        Answer::Overflowed => GoalResult {
            outcome: GoalOutcome::Overflowed,
            table,
            constraints: List::Nil,
            hit: cr.hit,
            tables: cr.tables,
        },
        Answer::NoSolution => GoalResult {
            outcome: GoalOutcome::NoSolution,
            table,
            constraints: List::Nil,
            hit: cr.hit,
            tables: cr.tables,
        },
        Answer::Found(sol) => {
            let backup = clone_table(&table);
            match make_binder_vars(table, &sol.refined_goal.binders, &ck.umap, env.universe) {
                None => GoalResult {
                    outcome: GoalOutcome::Overflowed,
                    table: backup,
                    constraints: List::Nil,
                    hit: cr.hit,
                    tables: cr.tables,
                },
                Some((t2, ids)) => {
                    let vals = decanon_params(
                        &sol.refined_goal.value.value,
                        &ids,
                        &ck.umap,
                        env.universe,
                    );
                    let cons = decanon_constraints(
                        &sol.refined_goal.value.constraints,
                        &ids,
                        &ck.umap,
                        env.universe,
                    );
                    match apply_pairs(t2, &ck.vmap, &vals) {
                        UnifyOutcome::Fail => GoalResult {
                            outcome: GoalOutcome::NoSolution,
                            table: backup,
                            constraints: List::Nil,
                            hit: cr.hit,
                            tables: cr.tables,
                        },
                        UnifyOutcome::Unified { table: t3, constraints: cs } => GoalResult {
                            outcome: GoalOutcome::Success(sol.successful),
                            table: t3,
                            constraints: append_constraints(cons, cs),
                            hit: cr.hit,
                            tables: cr.tables,
                        },
                    }
                },
            }
        },
    }
}

pub fn fulfill(
    pr: &Program,
    env: &Environment,
    table: InferenceTable,
    stack: &List<StackEntry>,
    goals: &List<Goal>,
    fuel: u64,
    tab: bool,
    tables: List<AnswerTable>,
) -> (r: GoalResult)
    requires
        table.wf(),
    ensures
        r == spec_fulfill(pr, env, table, stack, goals, fuel, tab, tables),
        r.table.wf(),
    decreases fuel, 3int, crate::ir::goal_list_size(goals), 0nat,
{
    match goals {
        List::Nil => GoalResult {
            outcome: GoalOutcome::Success(Successful::Yes),
            table,
            constraints: List::Nil,
            hit: List::Nil,
            tables,
        },
        List::Cons(g, rest) => {
            let r1 = solve_goal(pr, env, table, stack, g, fuel, tab, tables);
            match r1.outcome {
                GoalOutcome::Success(s1) => {
                    let r2 = fulfill(pr, env, r1.table, stack, rest, fuel, tab, r1.tables);
                    match r2.outcome {
                        GoalOutcome::Success(s2) => GoalResult {
                            outcome: GoalOutcome::Success(s1.and(s2)),
                            table: r2.table,
                            constraints: append_constraints(r1.constraints, r2.constraints),
                            hit: append_hits(r1.hit, r2.hit),
                            tables: r2.tables,
                        },
                        GoalOutcome::NoSolution => GoalResult {
                            outcome: GoalOutcome::NoSolution,
                            table: r2.table,
                            constraints: List::Nil,
                            hit: append_hits(r1.hit, r2.hit),
                            tables: r2.tables,
                        },
                        GoalOutcome::Overflowed => GoalResult {
                            outcome: GoalOutcome::Overflowed,
                            table: r2.table,
                            constraints: List::Nil,
                            hit: append_hits(r1.hit, r2.hit),
                            tables: r2.tables,
                        },
                    }
                },
                _ => r1,
            }
        },
    }
}

pub fn solve_canonical(
    pr: &Program,
    stack: &List<StackEntry>,
    key: &CanonicalGoal,
    fuel: u64,
    tab: bool,
    tables: List<AnswerTable>,
) -> (r: CanonResult)
    ensures
        r == spec_solve_canonical(pr, stack, key, fuel, tab, tables),
    decreases fuel, 2int, 1nat, 0nat,
{
    match find_cycle(stack, key) {
        Some(ci) => if ci.coinductive {
            CanonResult {
                ans: Answer::Found(identity_solution(key, Successful::Yes)),
                hit: List::Cons(ci.depth, Box::new(List::Nil)),
                tables,
            }
        } else {
            CanonResult {
                ans: ci.assumption,
                hit: List::Cons(ci.depth, Box::new(List::Nil)),
                tables,
            }
        },
        None => {
            let cached = if tab {
                find_table(&tables, key)
            } else {
                None
            };
            match cached {
                Some(ans) => CanonResult { ans, hit: List::Nil, tables },
                None => {
                    if fuel == 0 {
                        CanonResult { ans: Answer::Overflowed, hit: List::Nil, tables }
                    } else {
                        let coind = is_coinductive(pr, &key.goal);
                        let depth = stack_len(stack);
                        iterate(
                            pr,
                            stack,
                            key,
                            coind,
                            depth,
                            Answer::NoSolution,
                            fuel,
                            fuel,
                            tab,
                            tables,
                        )
                    }
                },
            }
        },
    }
}

fn iterate(
    pr: &Program,
    stack: &List<StackEntry>,
    key: &CanonicalGoal,
    coind: bool,
    depth: u64,
    assumption: Answer,
    fuel: u64,
    budget: u64,
    tab: bool,
    tables: List<AnswerTable>,
) -> (r: CanonResult)
    ensures
        r == spec_iterate(pr, stack, key, coind, depth, assumption, fuel, budget, tab, tables),
    decreases fuel, 2int, 0nat, budget as nat,
{
    if fuel == 0 || budget == 0 {
        CanonResult { ans: Answer::Overflowed, hit: List::Nil, tables }
    } else {
        let entry = StackEntry {
            key: clone_key(key),
            coinductive: coind,
            assumption: clone_answer(&assumption),
            depth,
        };
        let stack2 = List::Cons(entry, Box::new(clone_stack(stack)));
        let tr = try_clauses(pr, key, &key.clauses, &stack2, fuel - 1, tab, tables);
        let out = hits_below(&tr.hits, depth);
        match tr.ans {
            Answer::Overflowed => CanonResult {
                ans: Answer::Overflowed,
                hit: out,
                tables: tr.tables,
            },
            _ => {
                let self_hit = contains_u64(&tr.hits, depth);
                if !self_hit {
                    let tables2 = store_table(tab, tr.tables, key, &tr.ans, &out);
                    CanonResult { ans: tr.ans, hit: out, tables: tables2 }
                } else if answer_eq(&tr.ans, &assumption) {
                    let tables2 = store_table(tab, tr.tables, key, &tr.ans, &out);
                    CanonResult { ans: tr.ans, hit: out, tables: tables2 }
                } else {
                    let terminal = match &tr.ans {
                        Answer::Found(s) => matches!(s.successful, Successful::Maybe),
                        _ => false,
                    };
                    if terminal {
                        let tables2 = store_table(tab, tr.tables, key, &tr.ans, &out);
                        CanonResult { ans: tr.ans, hit: out, tables: tables2 }
                    } else {
                        let nxt = iterate(
                            pr,
                            stack,
                            key,
                            coind,
                            depth,
                            tr.ans,
                            fuel,
                            budget - 1,
                            tab,
                            tr.tables,
                        );
                        CanonResult {
                            ans: nxt.ans,
                            hit: append_hits(out, nxt.hit),
                            tables: nxt.tables,
                        }
                    }
                }
            },
        }
    }
}

fn try_clauses(
    pr: &Program,
    key: &CanonicalGoal,
    rem: &List<Clause>,
    stack2: &List<StackEntry>,
    fuel: u64,
    tab: bool,
    tables: List<AnswerTable>,
) -> (r: ClausesResult)
    ensures
        r == spec_try_clauses(pr, key, rem, stack2, fuel, tab, tables),
    decreases fuel, 5int, rem.len(), 0nat,
{
    match rem {
        List::Nil => ClausesResult { ans: Answer::NoSolution, hits: List::Nil, tables },
        List::Cons(c, rest) => {
            let cand = eval_candidate(pr, key, c, stack2, fuel, tab, tables);
            match cand.ans {
                Answer::Overflowed => ClausesResult {
                    ans: Answer::Overflowed,
                    hits: cand.hits,
                    tables: cand.tables,
                },
                _ => {
                    let restr = try_clauses(pr, key, rest, stack2, fuel, tab, cand.tables);
                    match restr.ans {
                        Answer::Overflowed => ClausesResult {
                            ans: Answer::Overflowed,
                            hits: append_hits(cand.hits, restr.hits),
                            tables: restr.tables,
                        },
                        _ => ClausesResult {
                            ans: combine_answers(key, cand.ans, restr.ans),
                            hits: append_hits(cand.hits, restr.hits),
                            tables: restr.tables,
                        },
                    }
                },
            }
        },
    }
}

fn eval_candidate(
    pr: &Program,
    key: &CanonicalGoal,
    c: &Clause,
    stack2: &List<StackEntry>,
    fuel: u64,
    tab: bool,
    tables: List<AnswerTable>,
) -> (r: ClausesResult)
    ensures
        r == spec_eval_candidate(pr, key, c, stack2, fuel, tab, tables),
    decreases fuel, 4int, 0nat, 0nat,
{
    match build_table(&key.binders) {
        None => ClausesResult { ans: Answer::Overflowed, hits: List::Nil, tables },
        Some(t0) => match make_kind_vars(t0, &c.binders, key.universe) {
            None => ClausesResult { ans: Answer::Overflowed, hits: List::Nil, tables },
            Some((t1, args)) => {
                let head = inst_domain(&c.head, 0, &args);
                let body = inst_goals(&c.body, 0, &args);
                match match_heads(t1, &key.goal, &head) {
                    UnifyOutcome::Fail => ClausesResult {
                        ans: Answer::NoSolution,
                        hits: List::Nil,
                        tables,
                    },
                    UnifyOutcome::Unified { table: t2, constraints: cs } => {
                        let env2 = Environment {
                            clauses: clone_clauses(&key.clauses),
                            universe: key.universe,
                        };
                        let fr = fulfill(pr, &env2, t2, stack2, &body, fuel, tab, tables);
                        match fr.outcome {
                            GoalOutcome::Overflowed => ClausesResult {
                                ans: Answer::Overflowed,
                                hits: fr.hit,
                                tables: fr.tables,
                            },
                            GoalOutcome::NoSolution => ClausesResult {
                                ans: Answer::NoSolution,
                                hits: fr.hit,
                                tables: fr.tables,
                            },
                            GoalOutcome::Success(s) => ClausesResult {
                                ans: Answer::Found(
                                    canonicalize_answer(
                                        &fr.table,
                                        binders_len(&key.binders),
                                        s,
                                        &append_constraints(cs, fr.constraints),
                                    ),
                                ),
                                hits: fr.hit,
                                tables: fr.tables,
                            },
                        }
                    },
                }
            },
        },
    }
}

/// Which solving strategy to use and its recursion ceiling: the plain
/// fixed-point recursive search, or the same search with memoized answer
/// tables replayed across subgoals.
pub enum SolverChoice {
    Recursive { overflow_depth: u64 },
    Tabling { overflow_depth: u64 },
}

/// The environment a program starts a session with: its clauses, at the
/// root universe.
pub fn program_environment(pr: &Program) -> (r: Environment)
    ensures
        r == (Environment { clauses: pr.clauses, universe: 0u64 }),
{
    Environment { clauses: clone_clauses(&pr.clauses), universe: 0 }
}

/// Peel an outermost existential quantifier into root binders, so that
/// the reported substitution speaks of its variables.
pub open spec fn spec_kinds_to_binders(kinds: &List<ParamKind>) -> List<CanonicalBinder>
    decreases kinds,
{
    match kinds {
        List::Nil => List::Nil,
        List::Cons(k, rest) => List::Cons(
            CanonicalBinder { kind: *k, universe: 0 },
            Box::new(spec_kinds_to_binders(rest)),
        ),
    }
}

fn kinds_to_binders(kinds: &List<ParamKind>) -> (r: List<CanonicalBinder>)
    ensures
        r == spec_kinds_to_binders(kinds),
    decreases kinds,
{
    match kinds {
        List::Nil => List::Nil,
        List::Cons(k, rest) => List::Cons(
            CanonicalBinder { kind: *k, universe: 0 },
            Box::new(kinds_to_binders(rest)),
        ),
    }
}

pub open spec fn spec_peel_goal(g: &Goal) -> Quantified<Goal> {
    match g {
        Goal::Quantified(QuantifierKind::Exists, kinds, inner) => Quantified {
            binders: spec_kinds_to_binders(kinds),
            value: *(*inner),
        },
        _ => Quantified { binders: List::Nil, value: *g },
    }
}

pub fn peel_goal(g: &Goal) -> (r: Quantified<Goal>)
    ensures
        r == spec_peel_goal(g),
{
    match g {
        Goal::Quantified(QuantifierKind::Exists, kinds, inner) => Quantified {
            binders: kinds_to_binders(kinds),
            value: clone_goal(inner),
        },
        _ => Quantified { binders: List::Nil, value: clone_goal(g) },
    }
}

/// Solve a root goal against an environment.  `Ok(None)` means definite
/// non-provability; `Ok(Some(solution))` means provable, definitely or
/// ambiguously; `Err(Overflow)` means the recursion ceiling was exceeded.
pub open spec fn spec_solve_root_goal(
    pr: &Program,
    env: &Environment,
    goal: &Quantified<Goal>,
    choice: &SolverChoice,
) -> Result<Option<Solution<Substitution>>, Overflow> {
    let (fuel, tab) = match choice {
        SolverChoice::Recursive { overflow_depth } => (*overflow_depth, false),
        SolverChoice::Tabling { overflow_depth } => (*overflow_depth, true),
    };
    match spec_build_table(&goal.binders) {
        None => Err(Overflow),
        Some(t0) => {
            let args = spec_identity_subst(&goal.binders, 0);
            let gp = spec_inst_goal(&goal.value, 0, &args);
            let r = spec_solve_goal(pr, env, t0, &List::Nil, &gp, fuel, tab, List::Nil);
            match r.outcome {
                GoalOutcome::Overflowed => Err(Overflow),
                GoalOutcome::NoSolution => Ok(None),
                GoalOutcome::Success(s) => Ok(
                    Some(
                        spec_canonicalize_answer(
                            &r.table,
                            spec_binders_len(&goal.binders),
                            s,
                            &r.constraints,
                        ),
                    ),
                ),
            }
        },
    }
}

pub fn solve_root_goal(
    pr: &Program,
    env: &Environment,
    goal: &Quantified<Goal>,
    choice: &SolverChoice,
) -> (r: Result<Option<Solution<Substitution>>, Overflow>)
    ensures
        r == spec_solve_root_goal(pr, env, goal, choice),
{
    let (fuel, tab) = match choice {
        SolverChoice::Recursive { overflow_depth } => (*overflow_depth, false),
        SolverChoice::Tabling { overflow_depth } => (*overflow_depth, true),
    };
    match build_table(&goal.binders) {
        None => Err(Overflow),
        Some(t0) => {
            let args = identity_subst(&goal.binders, 0);
            let gp = inst_goal(&goal.value, 0, &args);
            let r = solve_goal(pr, env, t0, &List::Nil, &gp, fuel, tab, List::Nil);
            match r.outcome {
                GoalOutcome::Overflowed => Err(Overflow),
                GoalOutcome::NoSolution => Ok(None),
                GoalOutcome::Success(s) => Ok(
                    Some(
                        canonicalize_answer(
                            &r.table,
                            binders_len(&goal.binders),
                            s,
                            &r.constraints,
                        ),
                    ),
                ),
            }
        },
    }
}

} // verus!
