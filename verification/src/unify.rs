//! Structural unification.
//!
//! Constructors must match exactly; projections are kept rigid.  A type
//! variable binds to a value when the occurs check and the universe check
//! allow it; a lifetime pair with incompatible universes is not solved
//! eagerly but deferred as a residual equality constraint, to be checked
//! by an external region checker.
//!
//! Termination: every recursive call either records a binding (the count
//! of unbound variables drops) or keeps the store unchanged and moves to a
//! smaller resolved term.

use vstd::prelude::*;
use crate::list::List;
use crate::ir::{Lifetime, Param, ParamKind, Ty};
use crate::solution::LifetimeEq;
use crate::infer::{
    InferenceTable, VarInfo, table_lookup, value_ok_ty, value_ok_param, value_ok_params,
    mentions_ty, spec_resolve_ty, spec_resolve_param, spec_resolve_params, spec_bind_vars,
    spec_demote_param, lemma_resolve_idem_param, resolve_param, lookup_var, ok_value_ty,
    occurs_ty, bind_var, demote_param, lemma_same_binds_ok_param, lemma_same_binds_lookup,
};

verus! {

/// The result of a unification: the updated store and the deferred
/// lifetime equalities, or failure.
pub enum UnifyOutcome {
    Unified { table: InferenceTable, constraints: List<LifetimeEq> },
    Fail,
}

// Term sizes, measured after resolution.

pub open spec fn size_ty(t: &Ty) -> nat
    decreases t,
{
    match t {
        Ty::App { ctor: _, args } => 1 + size_params(args),
        Ty::Proj { assoc: _, args } => 1 + size_params(args),
        _ => 1,
    }
}

pub open spec fn size_param(p: &Param) -> nat
    decreases p,
{
    match p {
        Param::Ty(t) => size_ty(t),
        Param::Lt(_) => 1,
    }
}

pub open spec fn size_params(l: &List<Param>) -> nat
    decreases l,
{
    match l {
        List::Nil => 0,
        List::Cons(p, rest) => 1 + size_param(p) + size_params(rest),
    }
}

pub open spec fn rsize_ty(table: &InferenceTable, t: &Ty) -> nat {
    size_ty(&spec_resolve_ty(&table.vars, t))
}

pub open spec fn rsize_param(table: &InferenceTable, p: &Param) -> nat {
    size_param(&spec_resolve_param(&table.vars, p))
}

pub open spec fn rsize_params(table: &InferenceTable, l: &List<Param>) -> nat {
    size_params(&spec_resolve_params(&table.vars, l))
}

// Skolem universes of a value, for the universe check: a variable of
// universe `k` may only be bound to values whose skolems sit at `k` or
// below.

pub open spec fn skolems_le_ty(t: &Ty, k: u64) -> bool
    decreases t,
{
    match t {
        Ty::App { ctor: _, args } => skolems_le_params(args, k),
        Ty::Proj { assoc: _, args } => skolems_le_params(args, k),
        Ty::Skolem(u) => *u <= k,
        _ => true,
    }
}

pub open spec fn skolems_le_lt(l: &Lifetime, k: u64) -> bool {
    match l {
        Lifetime::Skolem(u) => *u <= k,
        _ => true,
    }
}

pub open spec fn skolems_le_param(p: &Param, k: u64) -> bool
    decreases p,
{
    match p {
        Param::Ty(t) => skolems_le_ty(t, k),
        Param::Lt(l) => skolems_le_lt(l, k),
    }
}

pub open spec fn skolems_le_params(l: &List<Param>, k: u64) -> bool
    decreases l,
{
    match l {
        List::Nil => true,
        List::Cons(p, rest) => skolems_le_param(p, k) && skolems_le_params(rest, k),
    }
}

pub fn check_skolems_ty(t: &Ty, k: u64) -> (r: bool)
    ensures
        r == skolems_le_ty(t, k),
    decreases t,
{
    match t {
        Ty::App { ctor: _, args } => check_skolems_params(args, k),
        Ty::Proj { assoc: _, args } => check_skolems_params(args, k),
        Ty::Skolem(u) => *u <= k,
        _ => true,
    }
}

pub fn check_skolems_param(p: &Param, k: u64) -> (r: bool)
    ensures
        r == skolems_le_param(p, k),
    decreases p,
{
    match p {
        Param::Ty(t) => check_skolems_ty(t, k),
        Param::Lt(l) => match l {
            Lifetime::Skolem(u) => *u <= k,
            _ => true,
        },
    }
}

pub fn check_skolems_params(l: &List<Param>, k: u64) -> (r: bool)
    ensures
        r == skolems_le_params(l, k),
    decreases l,
{
    match l {
        List::Nil => true,
        List::Cons(p, rest) => check_skolems_param(p, k) && check_skolems_params(rest, k),
    }
}

// Ground terms: no variables of any sort.

pub open spec fn ground_ty(t: &Ty) -> bool
    decreases t,
{
    match t {
        Ty::App { ctor: _, args } => ground_params(args),
        Ty::Proj { assoc: _, args } => ground_params(args),
        Ty::Skolem(_) => true,
        Ty::Var(_) => false,
        Ty::Bound(_, _) => false,
    }
}

pub open spec fn ground_lt(l: &Lifetime) -> bool {
    match l {
        Lifetime::Skolem(_) => true,
        _ => false,
    }
}

pub open spec fn ground_param(p: &Param) -> bool
    decreases p,
{
    match p {
        Param::Ty(t) => ground_ty(t),
        Param::Lt(l) => ground_lt(l),
    }
}

pub open spec fn ground_params(l: &List<Param>) -> bool
    decreases l,
{
    match l {
        List::Nil => true,
        List::Cons(p, rest) => ground_param(p) && ground_params(rest),
    }
}

pub proof fn lemma_ground_ok_ty(vars: &List<VarInfo>, t: &Ty)
    requires
        ground_ty(t),
    ensures
        value_ok_ty(vars, t),
    decreases t,
{
    match t {
        Ty::App { ctor: _, args } => lemma_ground_ok_params(vars, args),
        Ty::Proj { assoc: _, args } => lemma_ground_ok_params(vars, args),
        _ => {},
    }
}

pub proof fn lemma_ground_ok_param(vars: &List<VarInfo>, p: &Param)
    requires
        ground_param(p),
    ensures
        value_ok_param(vars, p),
    decreases p,
{
    match p {
        Param::Ty(t) => lemma_ground_ok_ty(vars, t),
        Param::Lt(_) => {},
    }
}

pub proof fn lemma_ground_ok_params(vars: &List<VarInfo>, l: &List<Param>)
    requires
        ground_params(l),
    ensures
        value_ok_params(vars, l),
    decreases l,
{
    match l {
        List::Nil => {},
        List::Cons(p, rest) => {
            lemma_ground_ok_param(vars, p);
            lemma_ground_ok_params(vars, rest);
        },
    }
}

// Appending constraint lists.

pub open spec fn spec_append_constraints(a: &List<LifetimeEq>, b: &List<LifetimeEq>) -> List<
    LifetimeEq,
>
    decreases a,
{
    match a {
        List::Nil => *b,
        List::Cons(x, rest) => List::Cons(*x, Box::new(spec_append_constraints(rest, b))),
    }
}

pub fn append_constraints(a: List<LifetimeEq>, b: List<LifetimeEq>) -> (r: List<LifetimeEq>)
    ensures
        r == spec_append_constraints(&a, &b),
    decreases a,
{
    match a {
        List::Nil => b,
        List::Cons(x, rest) => List::Cons(x, Box::new(append_constraints(*rest, b))),
    }
}

// The specification mirror of unification.  Each executable function
// below returns exactly what its mirror computes.

/// How one variable pair unifies: the one in the higher universe points at
/// the other, so the survivor stays visible from both scopes.
pub open spec fn spec_unify_var_var(table: InferenceTable, u: u64, v: u64, kind: ParamKind) -> UnifyOutcome {
    if u == v {
        UnifyOutcome::Unified { table, constraints: List::Nil }
    } else {
        match (table_lookup(&table.vars, u), table_lookup(&table.vars, v)) {
            (Some(iu), Some(iv)) => {
                if !(iu.binding is None && iu.kind == kind && iv.binding is None && iv.kind
                    == kind) {
                    UnifyOutcome::Fail
                } else {
                    let value_v = if kind is Ty {
                        Param::Ty(Ty::Var(v))
                    } else {
                        Param::Lt(Lifetime::Var(v))
                    };
                    let value_u = if kind is Ty {
                        Param::Ty(Ty::Var(u))
                    } else {
                        Param::Lt(Lifetime::Var(u))
                    };
                    if iv.universe < iu.universe || (iv.universe == iu.universe && v < u) {
                        UnifyOutcome::Unified {
                            table: InferenceTable {
                                len: table.len,
                                vars: spec_bind_vars(&table.vars, u, u as int, &value_v),
                            },
                            constraints: List::Nil,
                        }
                    } else {
                        UnifyOutcome::Unified {
                            table: InferenceTable {
                                len: table.len,
                                vars: spec_bind_vars(&table.vars, v, v as int, &value_u),
                            },
                            constraints: List::Nil,
                        }
                    }
                }
            },
            _ => UnifyOutcome::Fail,
        }
    }
}

/// Bind the type variable `u` to the non-variable value `t`, when the
/// occurs check and the universe check allow it.
pub open spec fn spec_bind_ty_var(table: InferenceTable, u: u64, t: Ty) -> UnifyOutcome {
    match table_lookup(&table.vars, u) {
        Some(iu) => {
            if !(iu.binding is None && iu.kind is Ty) {
                UnifyOutcome::Fail
            } else if !value_ok_ty(&table.vars, &t) {
                UnifyOutcome::Fail
            } else if mentions_ty(&t, u) {
                UnifyOutcome::Fail
            } else if !skolems_le_ty(&t, iu.universe) {
                UnifyOutcome::Fail
            } else {
                let value = Param::Ty(t);
                let demoted = spec_demote_param(table.vars, &value, iu.universe);
                UnifyOutcome::Unified {
                    table: InferenceTable {
                        len: table.len,
                        vars: spec_bind_vars(&demoted, u, u as int, &value),
                    },
                    constraints: List::Nil,
                }
            }
        },
        None => UnifyOutcome::Fail,
    }
}

/// Unification of two resolved lifetimes.  A variable pair binds; a
/// variable against a skolem binds when universes permit and is otherwise
/// deferred as a constraint; distinct skolems are always deferred.
pub open spec fn spec_unify_lt(table: InferenceTable, a: Lifetime, b: Lifetime) -> UnifyOutcome {
    match (a, b) {
        (Lifetime::Var(u), Lifetime::Var(v)) => spec_unify_var_var(
            table,
            u,
            v,
            ParamKind::Lifetime,
        ),
        (Lifetime::Var(u), Lifetime::Skolem(k)) => spec_bind_lt_var(table, u, k, a, b),
        (Lifetime::Skolem(k), Lifetime::Var(u)) => spec_bind_lt_var(table, u, k, a, b),
        (Lifetime::Skolem(i), Lifetime::Skolem(j)) => if i == j {
            UnifyOutcome::Unified { table, constraints: List::Nil }
        } else {
            UnifyOutcome::Unified {
                table,
                constraints: List::Cons(LifetimeEq { a, b }, Box::new(List::Nil)),
            }
        },
        _ => UnifyOutcome::Fail,
    }
}

/// Bind the lifetime variable `u` to the skolem `k` when scoping permits;
/// otherwise defer the pair as a constraint.
pub open spec fn spec_bind_lt_var(
    table: InferenceTable,
    u: u64,
    k: u64,
    a: Lifetime,
    b: Lifetime,
) -> UnifyOutcome {
    match table_lookup(&table.vars, u) {
        Some(iu) => {
            if !(iu.binding is None && iu.kind is Lifetime) {
                UnifyOutcome::Fail
            } else if k <= iu.universe {
                UnifyOutcome::Unified {
                    table: InferenceTable {
                        len: table.len,
                        vars: spec_bind_vars(
                            &table.vars,
                            u,
                            u as int,
                            &Param::Lt(Lifetime::Skolem(k)),
                        ),
                    },
                    constraints: List::Nil,
                }
            } else {
                UnifyOutcome::Unified {
                    table,
                    constraints: List::Cons(LifetimeEq { a, b }, Box::new(List::Nil)),
                }
            }
        },
        None => UnifyOutcome::Fail,
    }
}

/// Unification of two resolved types: constructors must match exactly and
/// arguments unify pairwise; a variable binds per `spec_bind_ty_var`.
pub open spec fn spec_unify_ty(table: InferenceTable, a: Ty, b: Ty) -> UnifyOutcome
    decreases table.unbound_count(), rsize_ty(&table, &a) + rsize_ty(&table, &b), 1int,
{
    if !table.wf() {
        UnifyOutcome::Fail
    } else {
        match (a, b) {
            (Ty::Var(u), Ty::Var(v)) => spec_unify_var_var(table, u, v, ParamKind::Ty),
            (Ty::Var(u), _) => spec_bind_ty_var(table, u, b),
            (_, Ty::Var(v)) => spec_bind_ty_var(table, v, a),
            (Ty::App { ctor: c1, args: a1 }, Ty::App { ctor: c2, args: a2 }) => if c1 == c2 {
                spec_unify_params(table, *a1, *a2)
            } else {
                UnifyOutcome::Fail
            },
            (Ty::Proj { assoc: p1, args: a1 }, Ty::Proj { assoc: p2, args: a2 }) => if p1 == p2 {
                spec_unify_params(table, *a1, *a2)
            } else {
                UnifyOutcome::Fail
            },
            (Ty::Skolem(i), Ty::Skolem(j)) => if i == j {
                UnifyOutcome::Unified { table, constraints: List::Nil }
            } else {
                UnifyOutcome::Fail
            },
            _ => UnifyOutcome::Fail,
        }
    }
}

/// Unification of two terms: resolve both, then match on their kinds.
pub open spec fn spec_unify_param(table: InferenceTable, a: Param, b: Param) -> UnifyOutcome
    decreases table.unbound_count(), rsize_param(&table, &a) + rsize_param(&table, &b), 2int,
{
    if !table.wf() {
        UnifyOutcome::Fail
    } else {
        let ra = spec_resolve_param(&table.vars, &a);
        let rb = spec_resolve_param(&table.vars, &b);
        proof {
            lemma_resolve_idem_param(&table.vars, &a);
            lemma_resolve_idem_param(&table.vars, &b);
        }
        match (ra, rb) {
            (Param::Ty(ta), Param::Ty(tb)) => spec_unify_ty(table, ta, tb),
            (Param::Lt(la), Param::Lt(lb)) => spec_unify_lt(table, la, lb),
            _ => UnifyOutcome::Fail,
        }
    }
}

/// Pairwise unification of two argument lists, threading the store.
pub open spec fn spec_unify_params(table: InferenceTable, a: List<Param>, b: List<Param>) -> UnifyOutcome
    decreases table.unbound_count(), rsize_params(&table, &a) + rsize_params(&table, &b), 3int,
{
    if !table.wf() {
        UnifyOutcome::Fail
    } else {
        match (a, b) {
            (List::Nil, List::Nil) => UnifyOutcome::Unified { table, constraints: List::Nil },
            (List::Cons(x, xs), List::Cons(y, ys)) => match spec_unify_param(table, x, y) {
                UnifyOutcome::Fail => UnifyOutcome::Fail,
                UnifyOutcome::Unified { table: t1, constraints: c1 } => {
                    if t1.wf() && t1.len == table.len && (t1.unbound_count()
                        < table.unbound_count() || t1.vars == table.vars) {
                        match spec_unify_params(t1, *xs, *ys) {
                            UnifyOutcome::Fail => UnifyOutcome::Fail,
                            UnifyOutcome::Unified { table: t2, constraints: c2 } => UnifyOutcome::Unified {
                                table: t2,
                                constraints: spec_append_constraints(&c1, &c2),
                            },
                        }
                    } else {
                        UnifyOutcome::Fail
                    }
                },
            },
            _ => UnifyOutcome::Fail,
        }
    }
}

// The executable unifier.  Each function returns exactly what its mirror
// computes, keeps the store well formed, and either records a binding (the
// unbound count drops) or leaves the store untouched.

pub fn unify_var_var(table: InferenceTable, u: u64, v: u64, kind: ParamKind) -> (r: UnifyOutcome)
    requires
        table.wf(),
    ensures
        r == spec_unify_var_var(table, u, v, kind),
        r matches UnifyOutcome::Unified { table: t, .. } ==> t.wf() && t.len == table.len && (
        t.unbound_count() < table.unbound_count() || t.vars == table.vars),
{
    if u == v {
        UnifyOutcome::Unified { table, constraints: List::Nil }
    } else {
        let (ok, ku, kv) = match (lookup_var(&table, u), lookup_var(&table, v)) {
            (Some(iu), Some(iv)) => {
                let well = iu.binding.is_none() && iu.kind == kind && iv.binding.is_none()
                    && iv.kind == kind;
                (well, iu.universe, iv.universe)
            },
            _ => (false, 0u64, 0u64),
        };
        if !ok {
            UnifyOutcome::Fail
        } else {
            let value_v = if kind == ParamKind::Ty {
                Param::Ty(Ty::Var(v))
            } else {
                Param::Lt(Lifetime::Var(v))
            };
            let value_u = if kind == ParamKind::Ty {
                Param::Ty(Ty::Var(u))
            } else {
                Param::Lt(Lifetime::Var(u))
            };
            if kv < ku || (kv == ku && v < u) {
                let t2 = bind_var(&table, u, &value_v);
                UnifyOutcome::Unified { table: t2, constraints: List::Nil }
            } else {
                let t2 = bind_var(&table, v, &value_u);
                UnifyOutcome::Unified { table: t2, constraints: List::Nil }
            }
        }
    }
}

pub fn unify_bind_ty(table: InferenceTable, u: u64, t: Ty) -> (r: UnifyOutcome)
    requires
        table.wf(),
    ensures
        r == spec_bind_ty_var(table, u, t),
        r matches UnifyOutcome::Unified { table: t2, .. } ==> t2.wf() && t2.len == table.len && (
        t2.unbound_count() < table.unbound_count() || t2.vars == table.vars),
{
    let ghost t0 = table;
    let (present, unbound_ok, ku) = match lookup_var(&table, u) {
        Some(iu) => (true, iu.binding.is_none() && matches!(iu.kind, ParamKind::Ty), iu.universe),
        None => (false, false, 0u64),
    };
    if !present || !unbound_ok {
        UnifyOutcome::Fail
    } else if !ok_value_ty(&table, &t) {
        UnifyOutcome::Fail
    } else if occurs_ty(&t, u) {
        UnifyOutcome::Fail
    } else if !check_skolems_ty(&t, ku) {
        UnifyOutcome::Fail
    } else {
        let value = Param::Ty(t);
        let t1 = demote_param(table, &value, ku);
        proof {
            lemma_same_binds_lookup(&t0.vars, &t1.vars, u as nat);
            lemma_same_binds_ok_param(&t0.vars, &t1.vars, &value);
        }
        let t2 = bind_var(&t1, u, &value);
        UnifyOutcome::Unified { table: t2, constraints: List::Nil }
    }
}

pub fn unify_bind_lt(table: InferenceTable, u: u64, k: u64, a: Lifetime, b: Lifetime) -> (r:
    UnifyOutcome)
    requires
        table.wf(),
    ensures
        r == spec_bind_lt_var(table, u, k, a, b),
        r matches UnifyOutcome::Unified { table: t2, .. } ==> t2.wf() && t2.len == table.len && (
        t2.unbound_count() < table.unbound_count() || t2.vars == table.vars),
{
    let (present, unbound_ok, ku) = match lookup_var(&table, u) {
        Some(iu) => (
            true,
            iu.binding.is_none() && matches!(iu.kind, ParamKind::Lifetime),
            iu.universe,
        ),
        None => (false, false, 0u64),
    };
    if !present || !unbound_ok {
        UnifyOutcome::Fail
    } else if k <= ku {
        let t2 = bind_var(&table, u, &Param::Lt(Lifetime::Skolem(k)));
        UnifyOutcome::Unified { table: t2, constraints: List::Nil }
    } else {
        UnifyOutcome::Unified {
            table,
            constraints: List::Cons(LifetimeEq { a, b }, Box::new(List::Nil)),
        }
    }
}

pub fn unify_lt(table: InferenceTable, a: Lifetime, b: Lifetime) -> (r: UnifyOutcome)
    requires
        table.wf(),
    ensures
        r == spec_unify_lt(table, a, b),
        r matches UnifyOutcome::Unified { table: t2, .. } ==> t2.wf() && t2.len == table.len && (
        t2.unbound_count() < table.unbound_count() || t2.vars == table.vars),
{
    match (a, b) {
        (Lifetime::Var(u), Lifetime::Var(v)) => unify_var_var(table, u, v, ParamKind::Lifetime),
        (Lifetime::Var(u), Lifetime::Skolem(k)) => unify_bind_lt(
            table,
            u,
            k,
            Lifetime::Var(u),
            Lifetime::Skolem(k),
        ),
        (Lifetime::Skolem(k), Lifetime::Var(u)) => unify_bind_lt(
            table,
            u,
            k,
            Lifetime::Skolem(k),
            Lifetime::Var(u),
        ),
        (Lifetime::Skolem(i), Lifetime::Skolem(j)) => if i == j {
            UnifyOutcome::Unified { table, constraints: List::Nil }
        } else {
            UnifyOutcome::Unified {
                table,
                constraints: List::Cons(
                    LifetimeEq { a: Lifetime::Skolem(i), b: Lifetime::Skolem(j) },
                    Box::new(List::Nil),
                ),
            }
        },
        _ => UnifyOutcome::Fail,
    }
}

pub fn unify_ty(table: InferenceTable, a: Ty, b: Ty) -> (r: UnifyOutcome)
    requires
        table.wf(),
    ensures
        r == spec_unify_ty(table, a, b),
        r matches UnifyOutcome::Unified { table: t2, .. } ==> t2.wf() && t2.len == table.len && (
        t2.unbound_count() < table.unbound_count() || t2.vars == table.vars),
    decreases table.unbound_count(), rsize_ty(&table, &a) + rsize_ty(&table, &b), 1int,
{
    match (a, b) {
        (Ty::Var(u), Ty::Var(v)) => unify_var_var(table, u, v, ParamKind::Ty),
        (Ty::Var(u), other) => unify_bind_ty(table, u, other),
        (other, Ty::Var(v)) => unify_bind_ty(table, v, other),
        (Ty::App { ctor: c1, args: a1 }, Ty::App { ctor: c2, args: a2 }) => if c1 == c2 {
            unify_params(table, *a1, *a2)
        } else {
            UnifyOutcome::Fail
        },
        (Ty::Proj { assoc: p1, args: a1 }, Ty::Proj { assoc: p2, args: a2 }) => if p1 == p2 {
            unify_params(table, *a1, *a2)
        } else {
            UnifyOutcome::Fail
        },
        (Ty::Skolem(i), Ty::Skolem(j)) => if i == j {
            UnifyOutcome::Unified { table, constraints: List::Nil }
        } else {
            UnifyOutcome::Fail
        },
        _ => UnifyOutcome::Fail,
    }
}

/// Unify two terms under the store: the entry point the solver uses.
pub fn unify_param(table: InferenceTable, a: &Param, b: &Param) -> (r: UnifyOutcome)
    requires
        table.wf(),
    ensures
        r == spec_unify_param(table, *a, *b),
        r matches UnifyOutcome::Unified { table: t2, .. } ==> t2.wf() && t2.len == table.len && (
        t2.unbound_count() < table.unbound_count() || t2.vars == table.vars),
    decreases table.unbound_count(), rsize_param(&table, a) + rsize_param(&table, b), 2int,
{
    let ra = resolve_param(&table, a);
    let rb = resolve_param(&table, b);
    proof {
        lemma_resolve_idem_param(&table.vars, a);
        lemma_resolve_idem_param(&table.vars, b);
    }
    match (ra, rb) {
        (Param::Ty(ta), Param::Ty(tb)) => unify_ty(table, ta, tb),
        (Param::Lt(la), Param::Lt(lb)) => unify_lt(table, la, lb),
        _ => UnifyOutcome::Fail,
    }
}

/// Unify two argument lists pairwise, threading the store left to right.
pub fn unify_params(table: InferenceTable, a: List<Param>, b: List<Param>) -> (r: UnifyOutcome)
    requires
        table.wf(),
    ensures
        r == spec_unify_params(table, a, b),
        r matches UnifyOutcome::Unified { table: t2, .. } ==> t2.wf() && t2.len == table.len && (
        t2.unbound_count() < table.unbound_count() || t2.vars == table.vars),
    decreases table.unbound_count(), rsize_params(&table, &a) + rsize_params(&table, &b), 3int,
{
    match (a, b) {
        (List::Nil, List::Nil) => UnifyOutcome::Unified { table, constraints: List::Nil },
        (List::Cons(x, xs), List::Cons(y, ys)) => match unify_param(table, &x, &y) {
            UnifyOutcome::Fail => UnifyOutcome::Fail,
            UnifyOutcome::Unified { table: t1, constraints: c1 } => {
                match unify_params(t1, *xs, *ys) {
                    UnifyOutcome::Fail => UnifyOutcome::Fail,
                    UnifyOutcome::Unified { table: t2, constraints: c2 } => {
                        UnifyOutcome::Unified { table: t2, constraints: append_constraints(c1, c2) }
                    },
                }
            },
        },
        _ => UnifyOutcome::Fail,
    }
}

} // verus!
