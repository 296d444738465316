//! Laws of the solver, stated over the specification mirrors and proved
//! once and for all.

use vstd::prelude::*;
use crate::list::List;
use crate::ir::{Param, Ty};
use crate::solution::LifetimeEq;
use crate::infer::{InferenceTable, lemma_resolve_id_param};
use crate::unify::{
    UnifyOutcome, ground_param, ground_params, ground_ty, lemma_ground_ok_param,
    spec_unify_param, spec_unify_params, spec_unify_ty,
};

verus! {

/// Unifying any ground term with itself succeeds, changes no binding, and
/// defers no constraint: the substitution it produces is empty.
pub proof fn lemma_unify_reflexive(table: InferenceTable, a: Param)
    requires
        table.wf(),
        ground_param(&a),
    ensures
        spec_unify_param(table, a, a) == (UnifyOutcome::Unified {
            table,
            constraints: List::<LifetimeEq>::Nil,
        }),
    decreases a,
{
    lemma_ground_ok_param(&table.vars, &a);
    lemma_resolve_id_param(&table.vars, &a);
    match a {
        Param::Ty(ta) => lemma_unify_ty_reflexive(table, ta),
        Param::Lt(_) => {},
    }
}

proof fn lemma_unify_ty_reflexive(table: InferenceTable, t: Ty)
    requires
        table.wf(),
        ground_ty(&t),
    ensures
        spec_unify_ty(table, t, t) == (UnifyOutcome::Unified {
            table,
            constraints: List::<LifetimeEq>::Nil,
        }),
    decreases t,
{
    match t {
        Ty::App { ctor: _, args } => lemma_unify_params_reflexive(table, *args),
        Ty::Proj { assoc: _, args } => lemma_unify_params_reflexive(table, *args),
        _ => {},
    }
}

proof fn lemma_unify_params_reflexive(table: InferenceTable, l: List<Param>)
    requires
        table.wf(),
        ground_params(&l),
    ensures
        spec_unify_params(table, l, l) == (UnifyOutcome::Unified {
            table,
            constraints: List::<LifetimeEq>::Nil,
        }),
    decreases l,
{
    match l {
        List::Nil => {},
        List::Cons(x, xs) => {
            lemma_unify_reflexive(table, x);
            lemma_unify_params_reflexive(table, *xs);
        },
    }
}

/// Unifying two constructor applications with different heads always
/// fails, whatever their arguments and whatever the store holds.
pub proof fn lemma_unify_head_mismatch(table: InferenceTable, a: Param, b: Param)
    requires
        a matches Param::Ty(Ty::App { .. }),
        b matches Param::Ty(Ty::App { .. }),
        (a->Ty_0)->App_ctor != (b->Ty_0)->App_ctor,
    ensures
        spec_unify_param(table, a, b) == UnifyOutcome::Fail,
{
}

/// A goal result that counts as a definite proof: a forced success with no
/// residual lifetime obligations.
pub open spec fn provable(r: crate::solver::GoalResult) -> bool {
    &&& r.outcome == crate::solver::GoalOutcome::Success(crate::solution::Successful::Yes)
    &&& r.constraints is Nil
}

/// Negating a goal with a free inference variable is always ambiguous,
/// never definite: the store and the constraints are left untouched and
/// the answer is a `Maybe`.
pub proof fn lemma_negation_free_vars(
    pr: &crate::ir::Program,
    env: &crate::ir::Environment,
    table: InferenceTable,
    stack: &List<crate::solver::StackEntry>,
    g: crate::ir::Goal,
    fuel: u64,
    tab: bool,
    tables: List<crate::solver::AnswerTable>,
)
    requires
        crate::canonical::has_vars_goal(
            &crate::canonical::spec_resolve_goal(&table.vars, &g),
        ),
    ensures
        crate::solver::spec_solve_goal(
            pr,
            env,
            table,
            stack,
            &crate::ir::Goal::Not(Box::new(g)),
            fuel,
            tab,
            tables,
        ) == (crate::solver::GoalResult {
            outcome: crate::solver::GoalOutcome::Success(crate::solution::Successful::Maybe),
            table,
            constraints: List::<LifetimeEq>::Nil,
            hit: List::<u64>::Nil,
            tables,
        }),
{
    let rg = crate::canonical::spec_resolve_goal(&table.vars, &g);
    let ng = crate::ir::Goal::Not(Box::new(g));
    assert(crate::solver::spec_solve_goal(pr, env, table, stack, &ng, fuel, tab, tables)
        == crate::solver::spec_negate_goal(pr, env, table, stack, &rg, fuel, tab, tables));
}

/// A negation whose inner goal mentions neither a free variable nor a
/// universal placeholder is decided by the attempt on that goal itself.
proof fn lemma_negate_plain(
    pr: &crate::ir::Program,
    env: &crate::ir::Environment,
    table: InferenceTable,
    stack: &List<crate::solver::StackEntry>,
    rg: &crate::ir::Goal,
    fuel: u64,
    tab: bool,
    tables: List<crate::solver::AnswerTable>,
)
    requires
        !crate::canonical::has_vars_goal(rg),
        !crate::canonical::has_skolems_goal(rg),
    ensures
        crate::solver::spec_negate_goal(pr, env, table, stack, rg, fuel, tab, tables)
            == crate::solver::spec_invert(
            table,
            crate::solver::spec_solve_goal(pr, env, table, stack, rg, fuel, tab, tables),
        ),
{
}

/// Double negation, on ground goals (no free variable, no universal
/// placeholder): `not { not { G } }` has a definite proof exactly when
/// `G` has one.
pub proof fn lemma_double_negation(
    pr: &crate::ir::Program,
    env: &crate::ir::Environment,
    table: InferenceTable,
    stack: &List<crate::solver::StackEntry>,
    g: crate::ir::Goal,
    fuel: u64,
    tab: bool,
    tables: List<crate::solver::AnswerTable>,
)
    requires
        !crate::canonical::has_vars_goal(&g),
        !crate::canonical::has_skolems_goal(&g),
    ensures
        provable(
            crate::solver::spec_solve_goal(
                pr,
                env,
                table,
                stack,
                &crate::ir::Goal::Not(Box::new(crate::ir::Goal::Not(Box::new(g)))),
                fuel,
                tab,
                tables,
            ),
        ) <==> provable(crate::solver::spec_solve_goal(pr, env, table, stack, &g, fuel, tab, tables)),
{
    crate::canonical::lemma_novars_goal(&table.vars, &g);
    let ng = crate::ir::Goal::Not(Box::new(g));
    let nn = crate::ir::Goal::Not(Box::new(ng));
    assert(crate::canonical::spec_resolve_goal(&table.vars, &g) == g);
    assert(crate::canonical::spec_resolve_goal(&table.vars, &ng) == ng);
    assert(!crate::canonical::has_vars_goal(&ng));
    assert(!crate::canonical::has_skolems_goal(&ng));
    let r_g = crate::solver::spec_solve_goal(pr, env, table, stack, &g, fuel, tab, tables);
    let r_ng = crate::solver::spec_solve_goal(pr, env, table, stack, &ng, fuel, tab, tables);
    let r_nn = crate::solver::spec_solve_goal(pr, env, table, stack, &nn, fuel, tab, tables);
    assert(r_ng == crate::solver::spec_negate_goal(pr, env, table, stack, &g, fuel, tab, tables));
    assert(r_nn == crate::solver::spec_negate_goal(pr, env, table, stack, &ng, fuel, tab, tables));
    lemma_negate_plain(pr, env, table, stack, &g, fuel, tab, tables);
    lemma_negate_plain(pr, env, table, stack, &ng, fuel, tab, tables);
    assert(r_ng == crate::solver::spec_invert(table, r_g));
    assert(r_nn == crate::solver::spec_invert(table, r_ng));
    assert(r_ng.outcome == crate::solver::GoalOutcome::NoSolution <==> provable(r_g));
    assert(provable(r_nn) <==> r_ng.outcome == crate::solver::GoalOutcome::NoSolution);
}

} // verus!
