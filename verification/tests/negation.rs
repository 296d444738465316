use chalk::list::List;
use chalk::ir::{Clause, DomainGoal, Goal, Param, ParamKind, Program, QuantifierKind, Ty};
use chalk::solution::{Overflow, Solution, Substitution, Successful};
use chalk::solver::{SolverChoice, peel_goal, program_environment, solve_root_goal};

fn list<T>(v: Vec<T>) -> List<T> {
    let mut out = List::Nil;
    for x in v.into_iter().rev() {
        out = List::Cons(x, Box::new(out));
    }
    out
}

fn app(c: u64, args: Vec<Ty>) -> Ty {
    Ty::App { ctor: c, args: Box::new(list(args.into_iter().map(Param::Ty).collect())) }
}

fn implemented(t: Ty, tr: u64) -> DomainGoal {
    DomainGoal::Implemented { self_ty: t, trait_id: tr, args: List::Nil }
}

fn leaf(d: DomainGoal) -> Goal {
    Goal::Leaf(d)
}

fn rule(binders: Vec<ParamKind>, head: DomainGoal, body: Vec<Goal>) -> Clause {
    Clause { binders: list(binders), head, body: list(body) }
}

fn any_of(n: usize, g: Goal) -> Goal {
    Goal::Quantified(QuantifierKind::Exists, list(vec![ParamKind::Ty; n]), Box::new(g))
}

fn for_each(n: usize, g: Goal) -> Goal {
    Goal::Quantified(QuantifierKind::ForAll, list(vec![ParamKind::Ty; n]), Box::new(g))
}

fn negate(g: Goal) -> Goal {
    Goal::Not(Box::new(g))
}

fn program(clauses: Vec<Clause>) -> Program {
    Program { clauses: list(clauses), coinductive: List::Nil }
}

fn solve(pr: &Program, g: Goal) -> Result<Option<Solution<Substitution>>, Overflow> {
    let env = program_environment(pr);
    let peeled = peel_goal(&g);
    solve_root_goal(pr, &env, &peeled, &SolverChoice::Recursive { overflow_depth: 20 })
}

fn expect_no(r: Result<Option<Solution<Substitution>>, Overflow>) {
    assert!(matches!(r, Ok(None)));
}

fn expect_unique(r: Result<Option<Solution<Substitution>>, Overflow>) {
    match r {
        Ok(Some(s)) => assert!(matches!(s.successful, Successful::Yes)),
        _ => panic!("expected a unique solution"),
    }
}

fn expect_ambiguous(r: Result<Option<Solution<Substitution>>, Overflow>) {
    match r {
        Ok(Some(s)) => assert!(matches!(s.successful, Successful::Maybe)),
        _ => panic!("expected an ambiguous solution"),
    }
}

const I32: u64 = 1;
const VEC: u64 = 2;
const U32: u64 = 3;
const FOO_STRUCT: u64 = 4;
const FOO: u64 = 100;
const BAR: u64 = 101;
const BAZ: u64 = 102;

fn b(i: u64) -> Ty {
    Ty::Bound(0, i)
}

#[test]
fn simple_negation() {
    // struct i32; trait Foo (no impls).
    let pr = program(vec![]);
    let i32t = || app(I32, vec![]);
    // not { i32: Foo } holds: i32: Foo has no proof.
    expect_unique(solve(&pr, negate(leaf(implemented(i32t(), FOO)))));
    // not { not { i32: Foo } } accordingly fails.
    expect_no(solve(&pr, negate(negate(leaf(implemented(i32t(), FOO))))));
    // A triple negation holds again.
    expect_unique(solve(&pr, negate(negate(negate(leaf(implemented(i32t(), FOO)))))));
    // A negation under a free existential is ambiguous.
    expect_ambiguous(solve(&pr, any_of(1, negate(leaf(implemented(b(0), FOO))))));
    // Under a universal placeholder the inner goal is ground.
    expect_unique(solve(&pr, for_each(1, negate(leaf(implemented(b(0), FOO))))));
    // Negating a closed quantified goal works the same way.
    expect_unique(solve(&pr, negate(any_of(1, leaf(implemented(b(0), FOO))))));
    expect_unique(solve(&pr, negate(for_each(1, leaf(implemented(b(0), FOO))))));
}

#[test]
fn deep_negation() {
    // impl<T> Bar for Foo<T> where T: Baz; nothing provides Baz.
    let pr = program(vec![
        rule(
            vec![ParamKind::Ty],
            implemented(app(FOO_STRUCT, vec![b(0)]), BAR),
            vec![leaf(implemented(b(0), BAZ))],
        ),
    ]);
    expect_unique(solve(&pr, negate(any_of(1, leaf(implemented(b(0), BAZ))))));
    expect_unique(solve(
        &pr,
        negate(any_of(1, leaf(implemented(app(FOO_STRUCT, vec![b(0)]), BAR)))),
    ));
}

#[test]
fn negation_free_vars() {
    // impl Foo for Vec<u32>: not { Vec<?T>: Foo } cannot be decided while
    // ?T is free.
    let pr = program(vec![rule(
        vec![],
        implemented(app(VEC, vec![app(U32, vec![])]), FOO),
        vec![],
    )]);
    expect_ambiguous(solve(&pr, any_of(1, negate(leaf(implemented(app(VEC, vec![b(0)]), FOO))))));
}

#[test]
fn negation_sees_hypotheses() {
    // not { G } under the hypothesis G fails; without it, it holds.
    let pr = program(vec![]);
    let hyp = Clause { binders: List::Nil, head: implemented(app(I32, vec![]), FOO), body: List::Nil };
    expect_no(solve(
        &pr,
        Goal::Implies(
            Box::new(list(vec![hyp])),
            Box::new(negate(leaf(implemented(app(I32, vec![]), FOO)))),
        ),
    ));
    expect_unique(solve(&pr, negate(leaf(implemented(app(I32, vec![]), FOO)))));
}

#[test]
fn double_negation_of_provable() {
    // Where G holds outright, not { not { G } } holds too.
    let pr = program(vec![rule(vec![], implemented(app(I32, vec![]), FOO), vec![])]);
    expect_unique(solve(&pr, leaf(implemented(app(I32, vec![]), FOO))));
    expect_unique(solve(&pr, negate(negate(leaf(implemented(app(I32, vec![]), FOO))))));
    expect_no(solve(&pr, negate(leaf(implemented(app(I32, vec![]), FOO)))));
}

#[test]
fn negation_quantifiers() {
    // struct i32; struct u32.
    let pr = program(vec![]);
    let eq_tu = |outer: u64, a: u64, b2: u64| {
        Goal::Leaf(DomainGoal::Equals(
            Param::Ty(Ty::Bound(outer, a)),
            Param::Ty(Ty::Bound(outer, b2)),
        ))
    };
    // not { forall<T, U> { T = U } } holds: two distinct universal
    // placeholders never unify.
    expect_unique(solve(&pr, negate(for_each(2, eq_tu(0, 0, 1)))));
    // not { exists<T, U> { T = U } } fails: the existentials unify.
    expect_no(solve(&pr, negate(any_of(2, eq_tu(0, 0, 1)))));
    // forall<T, U> { not { T = U } } fails too: reopened existentially,
    // T = U is provable at T = U.
    expect_no(solve(&pr, for_each(2, negate(eq_tu(0, 0, 1)))));
}

#[test]
fn negation_reopens_placeholders() {
    // impl Foo for Vec<u32>: under forall<T>, not { Vec<T>: Foo } must
    // fail, since T = u32 makes the inner goal provable; with no impl at
    // all it holds.
    let pr = program(vec![rule(
        vec![],
        implemented(app(VEC, vec![app(U32, vec![])]), FOO),
        vec![],
    )]);
    expect_no(solve(&pr, for_each(1, negate(leaf(implemented(app(VEC, vec![b(0)]), FOO))))));
    let empty = program(vec![]);
    expect_unique(solve(
        &empty,
        for_each(1, negate(leaf(implemented(app(VEC, vec![b(0)]), FOO)))),
    ));
}
