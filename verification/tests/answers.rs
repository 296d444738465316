use chalk::list::List;
use chalk::ir::{Clause, DomainGoal, Goal, Param, ParamKind, Program, QuantifierKind, Ty};
use chalk::ir::param_eq;
use chalk::solution::{
    Constrained, Overflow, Quantified, Solution, Substitution, Successful,
};
use chalk::solver::{SolverChoice, peel_goal, program_environment, solve_root_goal};

fn list<T>(v: Vec<T>) -> List<T> {
    let mut out = List::Nil;
    for x in v.into_iter().rev() {
        out = List::Cons(x, Box::new(out));
    }
    out
}

fn to_vec<T>(mut l: List<T>) -> Vec<T> {
    let mut out = Vec::new();
    loop {
        match l {
            List::Nil => {
                break;
            },
            List::Cons(x, rest) => {
                out.push(x);
                l = *rest;
            },
        }
    }
    out
}

fn app(c: u64, args: Vec<Ty>) -> Ty {
    Ty::App { ctor: c, args: Box::new(list(args.into_iter().map(Param::Ty).collect())) }
}

fn implemented(t: Ty, tr: u64, args: Vec<Ty>) -> DomainGoal {
    DomainGoal::Implemented {
        self_ty: t,
        trait_id: tr,
        args: list(args.into_iter().map(Param::Ty).collect()),
    }
}

fn leaf(d: DomainGoal) -> Goal {
    Goal::Leaf(d)
}

fn fact(head: DomainGoal) -> Clause {
    Clause { binders: List::Nil, head, body: List::Nil }
}

fn rule(binders: Vec<ParamKind>, head: DomainGoal, body: Vec<Goal>) -> Clause {
    Clause { binders: list(binders), head, body: list(body) }
}

fn any_of(n: usize, g: Goal) -> Goal {
    Goal::Quantified(QuantifierKind::Exists, list(vec![ParamKind::Ty; n]), Box::new(g))
}

fn for_each(n: usize, g: Goal) -> Goal {
    Goal::Quantified(QuantifierKind::ForAll, list(vec![ParamKind::Ty; n]), Box::new(g))
}

fn implies(hyps: Vec<Clause>, g: Goal) -> Goal {
    Goal::Implies(Box::new(list(hyps)), Box::new(g))
}

fn program(clauses: Vec<Clause>) -> Program {
    Program { clauses: list(clauses), coinductive: List::Nil }
}

fn solve(pr: &Program, g: Goal) -> Result<Option<Solution<Substitution>>, Overflow> {
    let env = program_environment(pr);
    let peeled = peel_goal(&g);
    solve_root_goal(pr, &env, &peeled, &SolverChoice::Recursive { overflow_depth: 20 })
}

fn solution(r: Result<Option<Solution<Substitution>>, Overflow>) -> Solution<Substitution> {
    match r {
        Ok(Some(s)) => s,
        _ => panic!("expected a solution"),
    }
}

fn expect_unique_subst(r: Result<Option<Solution<Substitution>>, Overflow>, expected: Vec<Ty>) {
    let s = solution(r);
    assert!(matches!(s.successful, Successful::Yes));
    let subst = to_vec(s.refined_goal.value.value);
    assert_eq!(subst.len(), expected.len());
    for (got, want) in subst.iter().zip(expected.into_iter()) {
        assert!(param_eq(got, &Param::Ty(want)));
    }
}

fn expect_no_guidance(r: Result<Option<Solution<Substitution>>, Overflow>) {
    let s = solution(r);
    assert!(matches!(s.successful, Successful::Maybe));
    let subst = to_vec(s.refined_goal.value.value);
    for (i, p) in subst.iter().enumerate() {
        assert!(param_eq(p, &Param::Ty(Ty::Var(i as u64))));
    }
}

const FOO: u64 = 1;
const BAR: u64 = 2;
const I32: u64 = 3;
const BOOL: u64 = 4;
const U32: u64 = 5;

const MARKER: u64 = 100;
const SOMETRAIT: u64 = 101;
const FOO_TRAIT: u64 = 102;
const BAR_TRAIT: u64 = 103;

fn b(i: u64) -> Ty {
    Ty::Bound(0, i)
}

#[test]
fn where_clause_trumps() {
    // impl Marker for Foo, and the hypothesis T: Marker.
    let pr = program(vec![fact(implemented(app(FOO, vec![]), MARKER, vec![]))]);
    let s = solution(solve(
        &pr,
        for_each(
            1,
            implies(
                vec![fact(implemented(Ty::Bound(1, 0), MARKER, vec![]))],
                leaf(implemented(b(0), MARKER, vec![])),
            ),
        ),
    ));
    assert!(matches!(s.successful, Successful::Yes));
}

#[test]
fn inapplicable_assumption_does_not_shadow() {
    // impl<T> Foo<i32> for T; hypothesis i32: Foo<T>.
    let pr = program(vec![rule(
        vec![ParamKind::Ty],
        implemented(b(0), FOO_TRAIT, vec![app(I32, vec![])]),
        vec![],
    )]);
    // forall<T> { exists<U> { if (i32: Foo<T>) { T: Foo<U> } } }.
    let goal = for_each(
        1,
        any_of(
            1,
            implies(
                vec![fact(implemented(app(I32, vec![]), FOO_TRAIT, vec![Ty::Bound(2, 0)]))],
                leaf(implemented(Ty::Bound(1, 0), FOO_TRAIT, vec![b(0)])),
            ),
        ),
    );
    let s = solution(solve(&pr, goal));
    assert!(matches!(s.successful, Successful::Yes));
}

#[test]
fn partial_overlap_1() {
    // impl<T> Marker for T where T: Foo; impl<T> Marker for T where
    // T: Bar; both apply under the two hypotheses, with the same answer.
    let pr = program(vec![
        rule(
            vec![ParamKind::Ty],
            implemented(b(0), MARKER, vec![]),
            vec![leaf(implemented(b(0), FOO_TRAIT, vec![]))],
        ),
        rule(
            vec![ParamKind::Ty],
            implemented(b(0), MARKER, vec![]),
            vec![leaf(implemented(b(0), BAR_TRAIT, vec![]))],
        ),
    ]);
    let s = solution(solve(
        &pr,
        for_each(
            1,
            implies(
                vec![
                    fact(implemented(Ty::Bound(1, 0), FOO_TRAIT, vec![])),
                    fact(implemented(Ty::Bound(1, 0), BAR_TRAIT, vec![])),
                ],
                leaf(implemented(b(0), MARKER, vec![])),
            ),
        ),
    ));
    assert!(matches!(s.successful, Successful::Yes));
}

fn sometrait_program() -> Program {
    // impl SomeTrait<i32> for Foo; impl SomeTrait<bool> for Bar;
    // impl SomeTrait<i32> for Bar.
    program(vec![
        fact(implemented(app(FOO, vec![]), SOMETRAIT, vec![app(I32, vec![])])),
        fact(implemented(app(BAR, vec![]), SOMETRAIT, vec![app(BOOL, vec![])])),
        fact(implemented(app(BAR, vec![]), SOMETRAIT, vec![app(I32, vec![])])),
    ])
}

fn hyp(t: Ty, tr: u64, args: Vec<Ty>) -> Clause {
    fact(implemented(t, tr, args))
}

#[test]
fn suggested_subst() {
    let pr = sometrait_program();
    let foo = || app(FOO, vec![]);
    let bar = || app(BAR, vec![]);
    let i32t = || app(I32, vec![]);
    let boolt = || app(BOOL, vec![]);
    // exists<T> { Foo: SomeTrait<T> } pins T to i32.
    expect_unique_subst(
        solve(&pr, any_of(1, leaf(implemented(foo(), SOMETRAIT, vec![b(0)])))),
        vec![i32t()],
    );
    // With the hypothesis i32: SomeTrait<bool>, the goal about i32 takes
    // the hypothesis.
    expect_unique_subst(
        solve(
            &pr,
            any_of(
                1,
                implies(
                    vec![hyp(i32t(), SOMETRAIT, vec![boolt()])],
                    leaf(implemented(i32t(), SOMETRAIT, vec![b(0)])),
                ),
            ),
        ),
        vec![boolt()],
    );
    // The same hypothesis does not disturb the goal about Foo.
    expect_unique_subst(
        solve(
            &pr,
            any_of(
                1,
                implies(
                    vec![hyp(i32t(), SOMETRAIT, vec![boolt()])],
                    leaf(implemented(foo(), SOMETRAIT, vec![b(0)])),
                ),
            ),
        ),
        vec![i32t()],
    );
    // A hypothesis that repeats the program's answer changes nothing.
    expect_unique_subst(
        solve(
            &pr,
            any_of(
                1,
                implies(
                    vec![hyp(foo(), SOMETRAIT, vec![i32t()])],
                    leaf(implemented(foo(), SOMETRAIT, vec![b(0)])),
                ),
            ),
        ),
        vec![i32t()],
    );
    // A hypothesis that disagrees with the program makes it ambiguous,
    // with no guidance reported.
    expect_no_guidance(solve(
        &pr,
        any_of(
            1,
            implies(
                vec![hyp(foo(), SOMETRAIT, vec![boolt()])],
                leaf(implemented(foo(), SOMETRAIT, vec![b(0)])),
            ),
        ),
    ));
    expect_no_guidance(solve(
        &pr,
        any_of(
            1,
            implies(
                vec![hyp(foo(), SOMETRAIT, vec![boolt()]), hyp(foo(), SOMETRAIT, vec![i32t()])],
                leaf(implemented(foo(), SOMETRAIT, vec![b(0)])),
            ),
        ),
    ));
    // Bar implements the capability at two parameters.
    expect_no_guidance(solve(&pr, any_of(1, leaf(implemented(bar(), SOMETRAIT, vec![b(0)])))));
    expect_no_guidance(solve(
        &pr,
        any_of(
            1,
            implies(
                vec![hyp(bar(), SOMETRAIT, vec![boolt()])],
                leaf(implemented(bar(), SOMETRAIT, vec![b(0)])),
            ),
        ),
    ));
    expect_no_guidance(solve(
        &pr,
        any_of(
            1,
            implies(
                vec![hyp(bar(), SOMETRAIT, vec![boolt()]), hyp(bar(), SOMETRAIT, vec![i32t()])],
                leaf(implemented(bar(), SOMETRAIT, vec![b(0)])),
            ),
        ),
    ));
}

#[test]
fn unify_reflexive_concrete() {
    // Equality of a ground term with itself: a unique proof with the
    // empty substitution, whatever the program holds.
    let pr = program(vec![]);
    let t = || app(FOO, vec![app(BAR, vec![]), app(I32, vec![])]);
    let s = solution(solve(
        &pr,
        leaf(DomainGoal::Equals(Param::Ty(t()), Param::Ty(t()))),
    ));
    assert!(matches!(s.successful, Successful::Yes));
    assert!(to_vec(s.refined_goal.value.value).is_empty());
    assert!(matches!(s.refined_goal.value.constraints, List::Nil));
}

#[test]
fn unify_head_mismatch_concrete() {
    // Different head constructors never unify, whatever their arguments.
    let pr = program(vec![]);
    let r = solve(
        &pr,
        leaf(DomainGoal::Equals(
            Param::Ty(app(FOO, vec![app(I32, vec![])])),
            Param::Ty(app(BAR, vec![app(I32, vec![])])),
        )),
    );
    assert!(matches!(r, Ok(None)));
}

#[test]
fn successful_and_or() {
    assert!(matches!(Successful::Yes.and(Successful::Yes), Successful::Yes));
    assert!(matches!(Successful::Yes.and(Successful::Maybe), Successful::Maybe));
    assert!(matches!(Successful::Maybe.and(Successful::Yes), Successful::Maybe));
    assert!(matches!(Successful::Maybe.and(Successful::Maybe), Successful::Maybe));
    assert!(matches!(Successful::Yes.or(Successful::Yes), Successful::Yes));
    assert!(matches!(Successful::Yes.or(Successful::Maybe), Successful::Yes));
    assert!(matches!(Successful::Maybe.or(Successful::Yes), Successful::Yes));
    assert!(matches!(Successful::Maybe.or(Successful::Maybe), Successful::Maybe));
}

#[test]
fn solution_map() {
    // map rewrites the carried value and keeps everything else.
    let s: Solution<u64> = Solution {
        successful: Successful::Yes,
        refined_goal: Quantified {
            binders: List::Nil,
            value: Constrained { value: 41, constraints: List::Nil },
        },
    };
    let s2 = s.map(|v| v + 1);
    assert!(matches!(s2.successful, Successful::Yes));
    assert_eq!(s2.refined_goal.value.value, 42);
}

fn solve_tabling(pr: &Program, g: Goal) -> Result<Option<Solution<Substitution>>, Overflow> {
    let env = program_environment(pr);
    let peeled = peel_goal(&g);
    solve_root_goal(pr, &env, &peeled, &SolverChoice::Tabling { overflow_depth: 20 })
}

#[test]
fn tabling_matches_recursive() {
    // The two strategies are interchangeable: same programs, same answers.
    let pr = sometrait_program();
    let foo = || app(FOO, vec![]);
    let bar = || app(BAR, vec![]);
    let i32t = || app(I32, vec![]);
    expect_unique_subst(
        solve_tabling(&pr, any_of(1, leaf(implemented(foo(), SOMETRAIT, vec![b(0)])))),
        vec![i32t()],
    );
    expect_no_guidance(solve_tabling(
        &pr,
        any_of(1, leaf(implemented(bar(), SOMETRAIT, vec![b(0)]))),
    ));
    // A conjunction that asks the same subgoal twice replays the table.
    let twice = any_of(
        1,
        Goal::And(
            Box::new(leaf(implemented(foo(), SOMETRAIT, vec![b(0)]))),
            Box::new(leaf(implemented(foo(), SOMETRAIT, vec![b(0)]))),
        ),
    );
    expect_unique_subst(solve_tabling(&pr, twice), vec![i32t()]);
    // A goal with no proof stays without one under tabling.
    let none = leaf(implemented(app(U32, vec![]), SOMETRAIT, vec![i32t()]));
    assert!(matches!(solve_tabling(&pr, none), Ok(None)));
}
