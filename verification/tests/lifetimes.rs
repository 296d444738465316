use chalk::list::List;
use chalk::ir::{Clause, DomainGoal, Goal, Lifetime, Param, ParamKind, Program, QuantifierKind, Ty};
use chalk::ir::{lt_eq, param_eq};
use chalk::solution::{CanonicalBinder, Overflow, Solution, Substitution, Successful};
use chalk::solver::{SolverChoice, peel_goal, program_environment, solve_root_goal};

fn list<T>(v: Vec<T>) -> List<T> {
    let mut out = List::Nil;
    for x in v.into_iter().rev() {
        out = List::Cons(x, Box::new(out));
    }
    out
}

fn to_vec<T>(mut l: List<T>) -> Vec<T> {
    let mut out = Vec::new();
    loop {
        match l {
            List::Nil => {
                break;
            },
            List::Cons(x, rest) => {
                out.push(x);
                l = *rest;
            },
        }
    }
    out
}

fn quantified(q: QuantifierKind, kinds: Vec<ParamKind>, g: Goal) -> Goal {
    Goal::Quantified(q, list(kinds), Box::new(g))
}

fn program(clauses: Vec<Clause>) -> Program {
    Program { clauses: list(clauses), coinductive: List::Nil }
}

fn solve(pr: &Program, g: Goal) -> Result<Option<Solution<Substitution>>, Overflow> {
    let env = program_environment(pr);
    let peeled = peel_goal(&g);
    solve_root_goal(pr, &env, &peeled, &SolverChoice::Recursive { overflow_depth: 20 })
}

const UNIT: u64 = 1;
const REF: u64 = 2;
const EQ: u64 = 100;

#[test]
fn unify_quantified_lifetimes() {
    // exists<'a> { forall<'b> { 'a = 'b } } must not bind the outer
    // existential to the inner universal: the answer is a fresh variable
    // for 'a, with the equality deferred as a residual constraint.
    let pr = program(vec![]);
    let goal = quantified(
        QuantifierKind::Exists,
        vec![ParamKind::Lifetime],
        quantified(
            QuantifierKind::ForAll,
            vec![ParamKind::Lifetime],
            Goal::Leaf(DomainGoal::Equals(
                Param::Lt(Lifetime::Bound(1, 0)),
                Param::Lt(Lifetime::Bound(0, 0)),
            )),
        ),
    );
    let s = match solve(&pr, goal) {
        Ok(Some(s)) => s,
        _ => panic!("expected a constrained solution"),
    };
    assert!(matches!(s.successful, Successful::Yes));
    let binders = to_vec(s.refined_goal.binders);
    assert_eq!(binders.len(), 1);
    assert!(matches!(
        binders[0],
        CanonicalBinder { kind: ParamKind::Lifetime, universe: 0 }
    ));
    let subst = to_vec(s.refined_goal.value.value);
    assert_eq!(subst.len(), 1);
    assert!(param_eq(&subst[0], &Param::Lt(Lifetime::Var(0))));
    let cons = to_vec(s.refined_goal.value.constraints);
    assert_eq!(cons.len(), 1);
    assert!(lt_eq(&cons[0].a, &Lifetime::Var(0)));
    assert!(lt_eq(&cons[0].b, &Lifetime::Skolem(1)));
}

fn ref_ty(lt: Lifetime, inner: Ty) -> Ty {
    Ty::App { ctor: REF, args: Box::new(list(vec![Param::Lt(lt), Param::Ty(inner)])) }
}

fn eq_impl() -> Clause {
    // impl<T> Eq<T> for T.
    Clause {
        binders: list(vec![ParamKind::Ty]),
        head: DomainGoal::Implemented {
            self_ty: Ty::Bound(0, 0),
            trait_id: EQ,
            args: list(vec![Param::Ty(Ty::Bound(0, 0))]),
        },
        body: List::Nil,
    }
}

#[test]
fn region_equality() {
    let pr = program(vec![eq_impl()]);
    let unit = || Ty::App { ctor: UNIT, args: Box::new(List::Nil) };
    // forall<'a, 'b> { Ref<'a, Unit>: Eq<Ref<'b, Unit>> }: provable, with
    // the residual constraint that the two regions be equal.
    let goal = quantified(
        QuantifierKind::ForAll,
        vec![ParamKind::Lifetime, ParamKind::Lifetime],
        Goal::Leaf(DomainGoal::Implemented {
            self_ty: ref_ty(Lifetime::Bound(0, 0), unit()),
            trait_id: EQ,
            args: list(vec![Param::Ty(ref_ty(Lifetime::Bound(0, 1), unit()))]),
        }),
    );
    let s = match solve(&pr, goal) {
        Ok(Some(s)) => s,
        _ => panic!("expected a constrained solution"),
    };
    assert!(matches!(s.successful, Successful::Yes));
    assert!(to_vec(s.refined_goal.value.value).is_empty());
    let cons = to_vec(s.refined_goal.value.constraints);
    assert_eq!(cons.len(), 1);
    assert!(lt_eq(&cons[0].a, &Lifetime::Skolem(2)));
    assert!(lt_eq(&cons[0].b, &Lifetime::Skolem(1)));

    // forall<'a> { exists<'b> { Ref<'a, Unit>: Eq<Ref<'b, Unit>> } }: the
    // existential can simply be the universal region itself.
    let goal2 = quantified(
        QuantifierKind::ForAll,
        vec![ParamKind::Lifetime],
        quantified(
            QuantifierKind::Exists,
            vec![ParamKind::Lifetime],
            Goal::Leaf(DomainGoal::Implemented {
                self_ty: ref_ty(Lifetime::Bound(1, 0), unit()),
                trait_id: EQ,
                args: list(vec![Param::Ty(ref_ty(Lifetime::Bound(0, 0), unit()))]),
            }),
        ),
    );
    let s2 = match solve(&pr, goal2) {
        Ok(Some(s)) => s,
        _ => panic!("expected a solution"),
    };
    assert!(matches!(s2.successful, Successful::Yes));
    assert!(matches!(s2.refined_goal.value.constraints, List::Nil));
}

#[test]
fn mixed_indices_unify() {
    // exists<T, 'a, U> { Ref<'a, T> = Ref<'a, U> }: provable by linking T
    // with U; the answer leaves one type and one region variable free.
    let pr = program(vec![]);
    let goal = quantified(
        QuantifierKind::Exists,
        vec![ParamKind::Ty, ParamKind::Lifetime, ParamKind::Ty],
        Goal::Leaf(DomainGoal::Equals(
            Param::Ty(ref_ty(Lifetime::Bound(0, 1), Ty::Bound(0, 0))),
            Param::Ty(ref_ty(Lifetime::Bound(0, 1), Ty::Bound(0, 2))),
        )),
    );
    let s = match solve(&pr, goal) {
        Ok(Some(s)) => s,
        _ => panic!("expected a solution"),
    };
    assert!(matches!(s.successful, Successful::Yes));
    let binders = to_vec(s.refined_goal.binders);
    assert_eq!(binders.len(), 2);
    let subst = to_vec(s.refined_goal.value.value);
    assert_eq!(subst.len(), 3);
    // The two type positions resolve to one and the same fresh variable.
    assert!(param_eq(&subst[0], &subst[2]));
    assert!(matches!(&subst[1], Param::Lt(Lifetime::Var(_))));
    assert!(matches!(s.refined_goal.value.constraints, List::Nil));
}

#[test]
fn mixed_indices_match_program() {
    // struct S; struct Bar<'a, T, U>; impl<'a> Foo for Bar<'a, S, S>.
    const SS: u64 = 3;
    const BARC: u64 = 4;
    const FOO: u64 = 101;
    let s_ty = || Ty::App { ctor: SS, args: Box::new(List::Nil) };
    let pr = program(vec![Clause {
        binders: list(vec![ParamKind::Lifetime]),
        head: DomainGoal::Implemented {
            self_ty: Ty::App {
                ctor: BARC,
                args: Box::new(list(vec![
                    Param::Lt(Lifetime::Bound(0, 0)),
                    Param::Ty(s_ty()),
                    Param::Ty(s_ty()),
                ])),
            },
            trait_id: FOO,
            args: List::Nil,
        },
        body: List::Nil,
    }]);
    let goal = quantified(
        QuantifierKind::Exists,
        vec![ParamKind::Ty, ParamKind::Lifetime, ParamKind::Ty],
        Goal::Leaf(DomainGoal::Implemented {
            self_ty: Ty::App {
                ctor: BARC,
                args: Box::new(list(vec![
                    Param::Lt(Lifetime::Bound(0, 1)),
                    Param::Ty(Ty::Bound(0, 0)),
                    Param::Ty(Ty::Bound(0, 2)),
                ])),
            },
            trait_id: FOO,
            args: List::Nil,
        }),
    );
    let s = match solve(&pr, goal) {
        Ok(Some(s)) => s,
        _ => panic!("expected a solution"),
    };
    assert!(matches!(s.successful, Successful::Yes));
    let subst = to_vec(s.refined_goal.value.value);
    assert_eq!(subst.len(), 3);
    assert!(param_eq(&subst[0], &Param::Ty(s_ty())));
    assert!(matches!(&subst[1], Param::Lt(Lifetime::Var(_))));
    assert!(param_eq(&subst[2], &Param::Ty(s_ty())));
}
