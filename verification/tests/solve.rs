use chalk::list::List;
use chalk::ir::{Clause, DomainGoal, Goal, Param, ParamKind, Program, QuantifierKind, Ty};
use chalk::ir::param_eq;
use chalk::solution::{Overflow, Solution, Substitution, Successful};
use chalk::solver::{SolverChoice, peel_goal, program_environment, solve_root_goal};

fn list<T>(v: Vec<T>) -> List<T> {
    let mut out = List::Nil;
    for x in v.into_iter().rev() {
        out = List::Cons(x, Box::new(out));
    }
    out
}

fn to_vec<T>(mut l: List<T>) -> Vec<T> {
    let mut out = Vec::new();
    loop {
        match l {
            List::Nil => {
                break;
            },
            List::Cons(x, rest) => {
                out.push(x);
                l = *rest;
            },
        }
    }
    out
}

fn app(c: u64, args: Vec<Ty>) -> Ty {
    Ty::App { ctor: c, args: Box::new(list(args.into_iter().map(Param::Ty).collect())) }
}

fn implemented(t: Ty, tr: u64, args: Vec<Ty>) -> DomainGoal {
    DomainGoal::Implemented {
        self_ty: t,
        trait_id: tr,
        args: list(args.into_iter().map(Param::Ty).collect()),
    }
}

fn leaf(d: DomainGoal) -> Goal {
    Goal::Leaf(d)
}

fn fact(head: DomainGoal) -> Clause {
    Clause { binders: List::Nil, head, body: List::Nil }
}

fn rule(binders: Vec<ParamKind>, head: DomainGoal, body: Vec<Goal>) -> Clause {
    Clause { binders: list(binders), head, body: list(body) }
}

fn any_of(n: usize, g: Goal) -> Goal {
    Goal::Quantified(QuantifierKind::Exists, list(vec![ParamKind::Ty; n]), Box::new(g))
}

fn for_each(n: usize, g: Goal) -> Goal {
    Goal::Quantified(QuantifierKind::ForAll, list(vec![ParamKind::Ty; n]), Box::new(g))
}

fn negate(g: Goal) -> Goal {
    Goal::Not(Box::new(g))
}

fn proj(assoc: u64, args: Vec<Ty>) -> Ty {
    Ty::Proj { assoc, args: Box::new(list(args.into_iter().map(Param::Ty).collect())) }
}

fn implies(hyps: Vec<Clause>, g: Goal) -> Goal {
    Goal::Implies(Box::new(list(hyps)), Box::new(g))
}

fn program(clauses: Vec<Clause>, coinductive: Vec<u64>) -> Program {
    Program { clauses: list(clauses), coinductive: list(coinductive) }
}

fn solve(pr: &Program, g: Goal) -> Result<Option<Solution<Substitution>>, Overflow> {
    let env = program_environment(pr);
    let peeled = peel_goal(&g);
    solve_root_goal(pr, &env, &peeled, &SolverChoice::Recursive { overflow_depth: 20 })
}

fn expect_no(r: Result<Option<Solution<Substitution>>, Overflow>) {
    match r {
        Ok(None) => {},
        Ok(Some(_)) => panic!("expected no solution, found one"),
        Err(_) => panic!("expected no solution, overflowed"),
    }
}

fn solution(r: Result<Option<Solution<Substitution>>, Overflow>) -> Solution<Substitution> {
    match r {
        Ok(Some(s)) => s,
        Ok(None) => panic!("expected a solution, found none"),
        Err(_) => panic!("expected a solution, overflowed"),
    }
}

fn expect_unique_empty(r: Result<Option<Solution<Substitution>>, Overflow>) {
    let s = solution(r);
    assert!(matches!(s.successful, Successful::Yes));
    let subst = to_vec(s.refined_goal.value.value);
    assert!(subst.is_empty());
    assert!(matches!(s.refined_goal.value.constraints, List::Nil));
}

fn expect_unique_subst(r: Result<Option<Solution<Substitution>>, Overflow>, expected: Vec<Ty>) {
    let s = solution(r);
    assert!(matches!(s.successful, Successful::Yes));
    let subst = to_vec(s.refined_goal.value.value);
    assert_eq!(subst.len(), expected.len());
    for (got, want) in subst.iter().zip(expected.into_iter()) {
        assert!(param_eq(got, &Param::Ty(want)));
    }
    assert!(matches!(s.refined_goal.value.constraints, List::Nil));
}

fn expect_ambiguous(r: Result<Option<Solution<Substitution>>, Overflow>) {
    let s = solution(r);
    assert!(matches!(s.successful, Successful::Maybe));
}

// Identifiers for the programs below: constructors first, then
// capabilities and projections.
const FOO: u64 = 1;
const BAR: u64 = 2;
const VEC: u64 = 3;
const I32: u64 = 4;
const S: u64 = 5;
const G: u64 = 6;
const Z: u64 = 7;
const INT: u64 = 8;
const PTR: u64 = 9;
const LIST_T: u64 = 10;
const UNIT: u64 = 12;
const U8: u64 = 14;
const SOMETYPE: u64 = 15;
const U32: u64 = 16;
const BAZ: u64 = 17;
const IMPLSBAZ: u64 = 18;

const CLONE: u64 = 100;
const MAP: u64 = 101;
const MARKER: u64 = 102;
const Q: u64 = 103;
const WF: u64 = 104;
const SIZED: u64 = 105;
const SEND: u64 = 106;
const TRAIT_A: u64 = 107;
const TRAIT_B: u64 = 108;
const EQ: u64 = 109;
const BAR_TRAIT: u64 = 110;
const BAZ_TRAIT: u64 = 111;
const DISPLAY: u64 = 112;
const DEBUG: u64 = 113;
const SOMETRAIT: u64 = 114;
const IDENTITY: u64 = 115;
const ITEM: u64 = 200;

fn b(i: u64) -> Ty {
    Ty::Bound(0, i)
}

fn clone_program() -> Program {
    // struct Foo; struct Bar; struct Vec<T>; trait Clone;
    // impl<T> Clone for Vec<T> where T: Clone; impl Clone for Foo.
    program(
        vec![
            rule(
                vec![ParamKind::Ty],
                implemented(app(VEC, vec![b(0)]), CLONE, vec![]),
                vec![leaf(implemented(b(0), CLONE, vec![]))],
            ),
            fact(implemented(app(FOO, vec![]), CLONE, vec![])),
        ],
        vec![],
    )
}

#[test]
fn prove_clone() {
    let pr = clone_program();
    expect_unique_empty(solve(&pr, leaf(implemented(app(VEC, vec![app(FOO, vec![])]), CLONE, vec![]))));
    expect_unique_empty(solve(&pr, leaf(implemented(app(FOO, vec![]), CLONE, vec![]))));
    expect_no(solve(&pr, leaf(implemented(app(BAR, vec![]), CLONE, vec![]))));
    expect_no(solve(&pr, leaf(implemented(app(VEC, vec![app(BAR, vec![])]), CLONE, vec![]))));
}

#[test]
fn prove_infer() {
    // impl Map<Bar> for Foo; impl Map<Foo> for Bar.
    let pr = program(
        vec![
            fact(implemented(app(FOO, vec![]), MAP, vec![app(BAR, vec![])])),
            fact(implemented(app(BAR, vec![]), MAP, vec![app(FOO, vec![])])),
        ],
        vec![],
    );
    // exists<A, B> { A: Map<B> } is ambiguous with no guidance.
    let s = solution(solve(&pr, any_of(2, leaf(implemented(b(0), MAP, vec![b(1)])))));
    assert!(matches!(s.successful, Successful::Maybe));
    let subst = to_vec(s.refined_goal.value.value);
    assert_eq!(subst.len(), 2);
    assert!(param_eq(&subst[0], &Param::Ty(Ty::Var(0))));
    assert!(param_eq(&subst[1], &Param::Ty(Ty::Var(1))));
    // exists<A> { A: Map<Bar> } pins A to Foo.
    expect_unique_subst(
        solve(&pr, any_of(1, leaf(implemented(b(0), MAP, vec![app(BAR, vec![])])))),
        vec![app(FOO, vec![])],
    );
    // exists<A> { Foo: Map<A> } pins A to Bar.
    expect_unique_subst(
        solve(&pr, any_of(1, leaf(implemented(app(FOO, vec![]), MAP, vec![b(0)])))),
        vec![app(BAR, vec![])],
    );
}

#[test]
fn prove_forall() {
    // trait Marker; impl<T> Marker for Vec<T>; trait Clone;
    // impl Clone for Foo; impl<T> Clone for Vec<T> where T: Clone.
    let pr = program(
        vec![
            rule(
                vec![ParamKind::Ty],
                implemented(app(VEC, vec![b(0)]), MARKER, vec![]),
                vec![],
            ),
            fact(implemented(app(FOO, vec![]), CLONE, vec![])),
            rule(
                vec![ParamKind::Ty],
                implemented(app(VEC, vec![b(0)]), CLONE, vec![]),
                vec![leaf(implemented(b(0), CLONE, vec![]))],
            ),
        ],
        vec![],
    );
    // forall<T> { T: Marker } has no proof.
    expect_no(solve(&pr, for_each(1, leaf(implemented(b(0), MARKER, vec![])))));
    // forall<T> { not { T: Marker } } fails too: reopened existentially,
    // T: Marker is provable at T = Vec<..>.
    expect_no(solve(&pr, for_each(1, negate(leaf(implemented(b(0), MARKER, vec![]))))));
    // not { forall<T> { T: Marker } } holds: the universal claim fails.
    expect_unique_empty(solve(&pr, negate(for_each(1, leaf(implemented(b(0), MARKER, vec![]))))));
    // forall<T> { if (T: Marker) { T: Marker } } holds trivially.
    expect_unique_empty(solve(
        &pr,
        for_each(
            1,
            implies(
                vec![fact(implemented(Ty::Bound(1, 0), MARKER, vec![]))],
                leaf(implemented(b(0), MARKER, vec![])),
            ),
        ),
    ));
    // forall<T> { Vec<T>: Marker } needs nothing of T.
    expect_unique_empty(solve(&pr, for_each(1, leaf(implemented(app(VEC, vec![b(0)]), MARKER, vec![])))));
    // forall<T> { Vec<T>: Clone } is not provable without T: Clone.
    expect_no(solve(&pr, for_each(1, leaf(implemented(app(VEC, vec![b(0)]), CLONE, vec![])))));
    // forall<T> { if (T: Clone) { Vec<T>: Clone } } is.
    expect_unique_empty(solve(
        &pr,
        for_each(
            1,
            implies(
                vec![fact(implemented(Ty::Bound(1, 0), CLONE, vec![]))],
                leaf(implemented(app(VEC, vec![b(0)]), CLONE, vec![])),
            ),
        ),
    ));
}

#[test]
fn higher_ranked() {
    // impl<U> Foo<u8> for SomeType<U>.
    let pr = program(
        vec![
            rule(
                vec![ParamKind::Ty],
                implemented(app(SOMETYPE, vec![b(0)]), FOO, vec![app(U8, vec![])]),
                vec![],
            ),
        ],
        vec![],
    );
    // exists<V> { forall<U> { SomeType<U>: Foo<V> } } pins V to u8.
    expect_unique_subst(
        solve(
            &pr,
            any_of(
                1,
                for_each(1, leaf(implemented(app(SOMETYPE, vec![b(0)]), FOO, vec![Ty::Bound(1, 0)]))),
            ),
        ),
        vec![app(U8, vec![])],
    );
}

#[test]
fn ordering() {
    // impl<U> Foo<U> for U.
    let pr = program(
        vec![rule(vec![ParamKind::Ty], implemented(b(0), FOO, vec![b(0)]), vec![])],
        vec![],
    );
    // exists<V> { forall<U> { U: Foo<V> } }: V may not capture U.
    expect_no(solve(
        &pr,
        any_of(1, for_each(1, leaf(implemented(b(0), FOO, vec![Ty::Bound(1, 0)])))),
    ));
}

fn cycle_program(with_i32: bool, with_bar: bool) -> Program {
    // impl<T> Foo for S<T> where T: Foo [, T: Bar];  [impl Foo for i32].
    let mut body = vec![leaf(implemented(b(0), FOO, vec![]))];
    if with_bar {
        body.push(leaf(implemented(b(0), BAR_TRAIT, vec![])));
    }
    let mut clauses = vec![rule(
        vec![ParamKind::Ty],
        implemented(app(S, vec![b(0)]), FOO, vec![]),
        body,
    )];
    if with_i32 {
        clauses.push(fact(implemented(app(I32, vec![]), FOO, vec![])));
    }
    program(clauses, vec![])
}

#[test]
fn cycle_no_solution() {
    // Only an infinite tower S<S<...>> could prove it.
    let pr = cycle_program(false, false);
    expect_no(solve(&pr, any_of(1, leaf(implemented(b(0), FOO, vec![])))));
}

#[test]
fn cycle_many_solutions() {
    // i32, S<i32>, S<S<i32>>, ... form an infinite family of proofs.
    let pr = cycle_program(true, false);
    expect_ambiguous(solve(&pr, any_of(1, leaf(implemented(b(0), FOO, vec![])))));
}

#[test]
fn cycle_unique_solution() {
    // The S branch also needs T: Bar, which nothing provides.
    let pr = cycle_program(true, true);
    expect_unique_subst(
        solve(&pr, any_of(1, leaf(implemented(b(0), FOO, vec![])))),
        vec![app(I32, vec![])],
    );
}

fn wf_sized_program(wf_first: bool) -> Program {
    // impl Sized for Int; impl WF for Int;
    // impl<T> WF for Vec<T> where T: Sized;
    // impl<T> Sized for Vec<T> where T: WF, T: Sized.
    let wf_vec = rule(
        vec![ParamKind::Ty],
        implemented(app(VEC, vec![b(0)]), WF, vec![]),
        vec![leaf(implemented(b(0), SIZED, vec![]))],
    );
    let sized_vec = rule(
        vec![ParamKind::Ty],
        implemented(app(VEC, vec![b(0)]), SIZED, vec![]),
        vec![
            leaf(implemented(b(0), WF, vec![])),
            leaf(implemented(b(0), SIZED, vec![])),
        ],
    );
    let mut clauses = vec![
        fact(implemented(app(INT, vec![]), SIZED, vec![])),
        fact(implemented(app(INT, vec![]), WF, vec![])),
    ];
    if wf_first {
        clauses.push(wf_vec);
        clauses.push(sized_vec);
    } else {
        clauses.push(sized_vec);
        clauses.push(wf_vec);
    }
    program(clauses, vec![])
}

#[test]
fn multiple_ambiguous_cycles() {
    // Two mutually dependent capabilities with several cyclic branches:
    // ambiguous, and the clause order must not change that.
    let pr = wf_sized_program(true);
    expect_ambiguous(solve(&pr, any_of(1, leaf(implemented(b(0), WF, vec![])))));
    let pr2 = wf_sized_program(false);
    expect_ambiguous(solve(&pr2, any_of(1, leaf(implemented(b(0), WF, vec![])))));
}

#[test]
fn inner_cycle() {
    // #[marker] trait A; #[marker] trait B;
    // impl<T> A for T where T: B; impl A for i32;
    // impl<T> B for T where T: A; impl<T> B for Vec<T> where T: B.
    let pr = program(
        vec![
            rule(
                vec![ParamKind::Ty],
                implemented(b(0), TRAIT_A, vec![]),
                vec![leaf(implemented(b(0), TRAIT_B, vec![]))],
            ),
            fact(implemented(app(I32, vec![]), TRAIT_A, vec![])),
            rule(
                vec![ParamKind::Ty],
                implemented(b(0), TRAIT_B, vec![]),
                vec![leaf(implemented(b(0), TRAIT_A, vec![]))],
            ),
            rule(
                vec![ParamKind::Ty],
                implemented(app(VEC, vec![b(0)]), TRAIT_B, vec![]),
                vec![leaf(implemented(b(0), TRAIT_B, vec![]))],
            ),
        ],
        vec![TRAIT_A, TRAIT_B],
    );
    expect_ambiguous(solve(&pr, any_of(1, leaf(implemented(b(0), TRAIT_A, vec![])))));
}

#[test]
fn overflow_error() {
    // impl Q for Z; impl<X> Q for G<X> where X: Q;
    // impl<X> Q for S<X> where X: Q, S<G<X>>: Q.
    // Proving S<Z>: Q spawns S<G<Z>>: Q, then S<G<G<Z>>>: Q, for ever.
    let pr = program(
        vec![
            fact(implemented(app(Z, vec![]), Q, vec![])),
            rule(
                vec![ParamKind::Ty],
                implemented(app(G, vec![b(0)]), Q, vec![]),
                vec![leaf(implemented(b(0), Q, vec![]))],
            ),
            rule(
                vec![ParamKind::Ty],
                implemented(app(S, vec![b(0)]), Q, vec![]),
                vec![
                    leaf(implemented(b(0), Q, vec![])),
                    leaf(implemented(app(S, vec![app(G, vec![b(0)])]), Q, vec![])),
                ],
            ),
        ],
        vec![],
    );
    let goal = leaf(implemented(app(S, vec![app(Z, vec![])]), Q, vec![]));
    let r1 = solve(&pr, goal);
    assert!(matches!(r1, Err(Overflow)));
    // The overflow is deterministic: asking again fails the same way.
    let goal2 = leaf(implemented(app(S, vec![app(Z, vec![])]), Q, vec![]));
    let r2 = solve(&pr, goal2);
    assert!(matches!(r2, Err(Overflow)));
}

fn send_program() -> Program {
    // #[auto] trait Send; struct i32; struct Ptr<T>; struct List<T>;
    // impl<T> Send for Ptr<T> where T: Send;
    // generated: i32: Send; List<T>: Send :- T: Send, Ptr<List<T>>: Send.
    program(
        vec![
            fact(implemented(app(I32, vec![]), SEND, vec![])),
            rule(
                vec![ParamKind::Ty],
                implemented(app(PTR, vec![b(0)]), SEND, vec![]),
                vec![leaf(implemented(b(0), SEND, vec![]))],
            ),
            rule(
                vec![ParamKind::Ty],
                implemented(app(LIST_T, vec![b(0)]), SEND, vec![]),
                vec![
                    leaf(implemented(b(0), SEND, vec![])),
                    leaf(implemented(app(PTR, vec![app(LIST_T, vec![b(0)])]), SEND, vec![])),
                ],
            ),
        ],
        vec![SEND],
    )
}

#[test]
fn coinductive_semantics() {
    let pr = send_program();
    // forall<T> { List<T>: Send } fails: nothing says T: Send.
    expect_no(solve(&pr, for_each(1, leaf(implemented(app(LIST_T, vec![b(0)]), SEND, vec![])))));
    // forall<T> { if (T: Send) { List<T>: Send } }: the cyclic proof
    // through Ptr<List<T>> is accepted, because Send is coinductive.
    expect_unique_empty(solve(
        &pr,
        for_each(
            1,
            implies(
                vec![fact(implemented(Ty::Bound(1, 0), SEND, vec![]))],
                leaf(implemented(app(LIST_T, vec![b(0)]), SEND, vec![])),
            ),
        ),
    ));
    // List<i32>: Send holds outright.
    expect_unique_empty(solve(
        &pr,
        leaf(implemented(app(LIST_T, vec![app(I32, vec![])]), SEND, vec![])),
    ));
    // exists<T> { T: Send } is ambiguous: many types qualify.
    expect_ambiguous(solve(&pr, any_of(1, leaf(implemented(b(0), SEND, vec![])))));
}

#[test]
fn mixed_semantics() {
    // #[auto] trait Send; trait Foo;
    // impl<T> Send for T where T: Foo; impl<T> Foo for T where T: Send.
    // The cycle runs through the non-coinductive Foo, so it is rejected.
    let pr = program(
        vec![
            rule(
                vec![ParamKind::Ty],
                implemented(b(0), SEND, vec![]),
                vec![leaf(implemented(b(0), FOO, vec![]))],
            ),
            rule(
                vec![ParamKind::Ty],
                implemented(b(0), FOO, vec![]),
                vec![leaf(implemented(b(0), SEND, vec![]))],
            ),
        ],
        vec![SEND],
    );
    expect_no(solve(&pr, any_of(1, leaf(implemented(b(0), SEND, vec![])))));
    expect_no(solve(&pr, any_of(1, leaf(implemented(b(0), FOO, vec![])))));
}

#[test]
fn deep_failure() {
    // impl<T> Bar for Foo<T> where T: Baz, and nothing provides Baz.
    let pr = program(
        vec![
            rule(
                vec![ParamKind::Ty],
                implemented(app(FOO, vec![b(0)]), BAR_TRAIT, vec![]),
                vec![leaf(implemented(b(0), BAZ_TRAIT, vec![]))],
            ),
        ],
        vec![],
    );
    expect_no(solve(&pr, any_of(1, leaf(implemented(b(0), BAZ_TRAIT, vec![])))));
    expect_no(solve(&pr, any_of(1, leaf(implemented(app(FOO, vec![b(0)]), BAR_TRAIT, vec![])))));
}

#[test]
fn deep_success() {
    // impl Baz for ImplsBaz; impl<T> Bar for Foo<T> where T: Baz.
    let pr = program(
        vec![
            fact(implemented(app(IMPLSBAZ, vec![]), BAZ_TRAIT, vec![])),
            rule(
                vec![ParamKind::Ty],
                implemented(app(FOO, vec![b(0)]), BAR_TRAIT, vec![]),
                vec![leaf(implemented(b(0), BAZ_TRAIT, vec![]))],
            ),
        ],
        vec![],
    );
    expect_unique_subst(
        solve(&pr, any_of(1, leaf(implemented(app(FOO, vec![b(0)]), BAR_TRAIT, vec![])))),
        vec![app(IMPLSBAZ, vec![])],
    );
}

#[test]
fn definite_guidance() {
    // impl Display for Bar; impl Display for Baz;
    // impl<T> Debug for Foo<T> where T: Display.
    let pr = program(
        vec![
            fact(implemented(app(BAR, vec![]), DISPLAY, vec![])),
            fact(implemented(app(BAZ, vec![]), DISPLAY, vec![])),
            rule(
                vec![ParamKind::Ty],
                implemented(app(FOO, vec![b(0)]), DEBUG, vec![]),
                vec![leaf(implemented(b(0), DISPLAY, vec![]))],
            ),
        ],
        vec![],
    );
    // exists<T> { T: Debug }: ambiguous, but with the definite shape
    // T := Foo<?> already known.
    let s = solution(solve(&pr, any_of(1, leaf(implemented(b(0), DEBUG, vec![])))));
    assert!(matches!(s.successful, Successful::Maybe));
    let subst = to_vec(s.refined_goal.value.value);
    assert_eq!(subst.len(), 1);
    assert!(param_eq(&subst[0], &Param::Ty(app(FOO, vec![Ty::Var(0)]))));
}

#[test]
fn generic_trait() {
    // impl Eq<Int> for Int; impl Eq<Uint> for Uint (Uint here: Unit).
    let pr = program(
        vec![
            fact(implemented(app(INT, vec![]), EQ, vec![app(INT, vec![])])),
            fact(implemented(app(UNIT, vec![]), EQ, vec![app(UNIT, vec![])])),
        ],
        vec![],
    );
    expect_unique_empty(solve(&pr, leaf(implemented(app(INT, vec![]), EQ, vec![app(INT, vec![])]))));
    expect_unique_empty(solve(&pr, leaf(implemented(app(UNIT, vec![]), EQ, vec![app(UNIT, vec![])]))));
    expect_no(solve(&pr, leaf(implemented(app(INT, vec![]), EQ, vec![app(UNIT, vec![])]))));
}

#[test]
fn normalize_rev_infer() {
    // impl Identity for u32 { type Item = u32 }; same for i32.
    // The expected value of the projection narrows the impl down.
    let pr = program(
        vec![
            fact(implemented(app(U32, vec![]), IDENTITY, vec![])),
            fact(implemented(app(I32, vec![]), IDENTITY, vec![])),
            fact(DomainGoal::Normalize {
                assoc: ITEM,
                args: list(vec![Param::Ty(app(U32, vec![]))]),
                output: app(U32, vec![]),
            }),
            fact(DomainGoal::Normalize {
                assoc: ITEM,
                args: list(vec![Param::Ty(app(I32, vec![]))]),
                output: app(I32, vec![]),
            }),
        ],
        vec![],
    );
    // exists<T> { T: Identity<Item = u32> }, with the normalization
    // constraint solved first so it can guide the self type.
    let goal = any_of(
        1,
        Goal::And(
            Box::new(leaf(DomainGoal::Normalize {
                assoc: ITEM,
                args: list(vec![Param::Ty(b(0))]),
                output: app(U32, vec![]),
            })),
            Box::new(leaf(implemented(b(0), IDENTITY, vec![]))),
        ),
    );
    expect_unique_subst(solve(&pr, goal), vec![app(U32, vec![])]);
}

#[test]
fn struct_wf() {
    // struct Foo<T> where T: Eq; trait Eq; impl Eq for Baz;
    // impl<T> Eq for Foo<T> where T: Eq.
    // Lowered: WellFormed(Foo<T>) :- T: Eq; WellFormed(Bar); WellFormed(Baz).
    let pr = program(
        vec![
            rule(
                vec![ParamKind::Ty],
                DomainGoal::WellFormed(app(FOO, vec![b(0)])),
                vec![leaf(implemented(b(0), EQ, vec![]))],
            ),
            fact(DomainGoal::WellFormed(app(BAR, vec![]))),
            fact(DomainGoal::WellFormed(app(BAZ, vec![]))),
            fact(implemented(app(BAZ, vec![]), EQ, vec![])),
            rule(
                vec![ParamKind::Ty],
                implemented(app(FOO, vec![b(0)]), EQ, vec![]),
                vec![leaf(implemented(b(0), EQ, vec![]))],
            ),
        ],
        vec![],
    );
    expect_no(solve(&pr, leaf(DomainGoal::WellFormed(app(FOO, vec![app(BAR, vec![])])))));
    expect_unique_empty(solve(&pr, leaf(DomainGoal::WellFormed(app(FOO, vec![app(BAZ, vec![])])))));
    expect_unique_empty(solve(
        &pr,
        leaf(DomainGoal::WellFormed(app(FOO, vec![app(FOO, vec![app(BAZ, vec![])])]))),
    ));
}

#[test]
fn inscope() {
    // InScope is provable only from a hypothesis.
    let pr = program(vec![], vec![]);
    expect_no(solve(&pr, leaf(DomainGoal::InScope(FOO))));
    expect_unique_empty(solve(
        &pr,
        implies(vec![fact(DomainGoal::InScope(FOO))], leaf(DomainGoal::InScope(FOO))),
    ));
}

#[test]
fn overflow_universe() {
    // forall<X> { X: Bar if forall<Y> { Y: Bar } }: proving Foo: Bar asks
    // for !1: Bar, which asks for !2: Bar, and so on; collapsing universes
    // identifies the cycle and rejects the goal instead of overflowing.
    let pr = program(
        vec![
            rule(
                vec![ParamKind::Ty],
                implemented(b(0), BAR_TRAIT, vec![]),
                vec![for_each(1, leaf(implemented(b(0), BAR_TRAIT, vec![])))],
            ),
        ],
        vec![],
    );
    expect_no(solve(&pr, leaf(implemented(app(FOO, vec![]), BAR_TRAIT, vec![]))));
}

#[test]
fn partial_overlap_2() {
    // trait Marker<T>; impl<T> Marker<i32> for T where T: Foo;
    // impl<T> Marker<u32> for T where T: Bar.
    let pr = program(
        vec![
            rule(
                vec![ParamKind::Ty],
                implemented(b(0), MARKER, vec![app(I32, vec![])]),
                vec![leaf(implemented(b(0), BAZ_TRAIT, vec![]))],
            ),
            rule(
                vec![ParamKind::Ty],
                implemented(b(0), MARKER, vec![app(U32, vec![])]),
                vec![leaf(implemented(b(0), BAR_TRAIT, vec![]))],
            ),
        ],
        vec![],
    );
    let hyps = || vec![
        fact(implemented(Ty::Bound(2, 0), BAZ_TRAIT, vec![])),
        fact(implemented(Ty::Bound(2, 0), BAR_TRAIT, vec![])),
    ];
    // With both hypotheses the parameter is underdetermined.
    expect_ambiguous(solve(
        &pr,
        for_each(
            1,
            any_of(1, implies(hyps(), leaf(implemented(Ty::Bound(1, 0), MARKER, vec![b(0)])))),
        ),
    ));
    // Asked for a concrete parameter, each impl answers alone.
    let hyps1 = || vec![
        fact(implemented(Ty::Bound(1, 0), BAZ_TRAIT, vec![])),
        fact(implemented(Ty::Bound(1, 0), BAR_TRAIT, vec![])),
    ];
    let s = solution(solve(
        &pr,
        for_each(
            1,
            implies(hyps1(), leaf(implemented(b(0), MARKER, vec![app(U32, vec![])]))),
        ),
    ));
    assert!(matches!(s.successful, Successful::Yes));
    let s2 = solution(solve(
        &pr,
        for_each(
            1,
            implies(hyps1(), leaf(implemented(b(0), MARKER, vec![app(I32, vec![])]))),
        ),
    ));
    assert!(matches!(s2.successful, Successful::Yes));
}

#[test]
fn partial_overlap_3() {
    // #[marker] trait Marker; two overlapping blanket impls; i32 has both
    // prerequisites.  Both candidates agree, so the answer stays unique.
    let pr = program(
        vec![
            rule(
                vec![ParamKind::Ty],
                implemented(b(0), MARKER, vec![]),
                vec![leaf(implemented(b(0), BAZ_TRAIT, vec![]))],
            ),
            rule(
                vec![ParamKind::Ty],
                implemented(b(0), MARKER, vec![]),
                vec![leaf(implemented(b(0), BAR_TRAIT, vec![]))],
            ),
            fact(implemented(app(I32, vec![]), BAZ_TRAIT, vec![])),
            fact(implemented(app(I32, vec![]), BAR_TRAIT, vec![])),
        ],
        vec![MARKER],
    );
    let s = solution(solve(
        &pr,
        for_each(
            1,
            implies(
                vec![
                    fact(implemented(Ty::Bound(1, 0), BAZ_TRAIT, vec![])),
                    fact(implemented(Ty::Bound(1, 0), BAR_TRAIT, vec![])),
                ],
                leaf(implemented(b(0), MARKER, vec![])),
            ),
        ),
    ));
    assert!(matches!(s.successful, Successful::Yes));
    let s2 = solution(solve(&pr, leaf(implemented(app(I32, vec![]), MARKER, vec![]))));
    assert!(matches!(s2.successful, Successful::Yes));
}

#[test]
fn auto_trait_without_impls() {
    // #[auto] trait Send with no explicit impls: the generated clauses say
    // a type is Send when its fields are.
    const USELESS: u64 = 40;
    const DATA: u64 = 41;
    let pr = program(
        vec![
            fact(implemented(app(I32, vec![]), SEND, vec![])),
            rule(vec![ParamKind::Ty], implemented(app(USELESS, vec![b(0)]), SEND, vec![]), vec![]),
            rule(
                vec![ParamKind::Ty],
                implemented(app(DATA, vec![b(0)]), SEND, vec![]),
                vec![leaf(implemented(b(0), SEND, vec![]))],
            ),
        ],
        vec![SEND],
    );
    expect_unique_empty(solve(&pr, leaf(implemented(app(I32, vec![]), SEND, vec![]))));
    expect_unique_empty(solve(&pr, for_each(1, leaf(implemented(app(USELESS, vec![b(0)]), SEND, vec![])))));
    expect_unique_empty(solve(
        &pr,
        for_each(
            1,
            implies(
                vec![fact(implemented(Ty::Bound(1, 0), SEND, vec![]))],
                leaf(implemented(app(DATA, vec![b(0)]), SEND, vec![])),
            ),
        ),
    ));
}

#[test]
fn auto_trait_with_impls() {
    // An explicit opt-out of i32 removes its generated clause; f32 keeps
    // one; Vec follows its explicit conditional impl.
    const F32C: u64 = 42;
    let pr = program(
        vec![
            rule(
                vec![ParamKind::Ty],
                implemented(app(VEC, vec![b(0)]), SEND, vec![]),
                vec![leaf(implemented(b(0), SEND, vec![]))],
            ),
            fact(implemented(app(F32C, vec![]), SEND, vec![])),
        ],
        vec![SEND],
    );
    expect_no(solve(&pr, leaf(implemented(app(I32, vec![]), SEND, vec![]))));
    expect_unique_empty(solve(&pr, leaf(implemented(app(F32C, vec![]), SEND, vec![]))));
    expect_no(solve(&pr, leaf(implemented(app(VEC, vec![app(I32, vec![])]), SEND, vec![]))));
    expect_unique_empty(solve(&pr, leaf(implemented(app(VEC, vec![app(F32C, vec![])]), SEND, vec![]))));
    expect_no(solve(&pr, for_each(1, leaf(implemented(app(VEC, vec![b(0)]), SEND, vec![])))));
}

const ITERATOR: u64 = 116;
const SLICE: u64 = 19;

#[test]
fn normalize_basic() {
    // trait Iterator { type Item }; struct Vec<T>; struct u32;
    // impl<T> Iterator for Vec<T> { type Item = T }.
    let pr = program(
        vec![
            rule(vec![ParamKind::Ty], implemented(app(VEC, vec![b(0)]), ITERATOR, vec![]), vec![]),
            rule(
                vec![ParamKind::Ty],
                DomainGoal::Normalize {
                    assoc: ITEM,
                    args: list(vec![Param::Ty(app(VEC, vec![b(0)]))]),
                    output: b(0),
                },
                vec![],
            ),
        ],
        vec![],
    );
    // forall<T> { exists<U> { Normalize(<Vec<T>>::Item -> U) } } pins U to
    // the universal placeholder for T.  The reported substitution covers
    // only outer existentials, so the pinning shows through equality
    // conjuncts: U = T succeeds, U = u32 does not.
    let norm_to = |out: Ty| {
        for_each(
            1,
            any_of(
                1,
                Goal::And(
                    Box::new(leaf(DomainGoal::Normalize {
                        assoc: ITEM,
                        args: list(vec![Param::Ty(app(VEC, vec![Ty::Bound(1, 0)]))]),
                        output: b(0),
                    })),
                    Box::new(leaf(DomainGoal::Equals(Param::Ty(b(0)), Param::Ty(out)))),
                ),
            ),
        )
    };
    expect_unique_empty(solve(
        &pr,
        for_each(
            1,
            any_of(
                1,
                leaf(DomainGoal::Normalize {
                    assoc: ITEM,
                    args: list(vec![Param::Ty(app(VEC, vec![Ty::Bound(1, 0)]))]),
                    output: b(0),
                }),
            ),
        ),
    ));
    expect_unique_empty(solve(&pr, norm_to(Ty::Bound(1, 0))));
    expect_no(solve(&pr, norm_to(app(U32, vec![]))));
    // forall<T> { Vec<T>: Iterator<Item = T> }.
    expect_unique_empty(solve(
        &pr,
        for_each(
            1,
            Goal::And(
                Box::new(leaf(implemented(app(VEC, vec![b(0)]), ITERATOR, vec![]))),
                Box::new(leaf(DomainGoal::Normalize {
                    assoc: ITEM,
                    args: list(vec![Param::Ty(app(VEC, vec![b(0)]))]),
                    output: b(0),
                })),
            ),
        ),
    ));
    // forall<T> { if (T: Iterator<Item = u32>) { <T>::Item normalizes to
    // u32 } }.
    expect_unique_empty(solve(
        &pr,
        for_each(
            1,
            implies(
                vec![
                    fact(implemented(Ty::Bound(1, 0), ITERATOR, vec![])),
                    fact(DomainGoal::Normalize {
                        assoc: ITEM,
                        args: list(vec![Param::Ty(Ty::Bound(1, 0))]),
                        output: app(U32, vec![]),
                    }),
                ],
                leaf(DomainGoal::Normalize {
                    assoc: ITEM,
                    args: list(vec![Param::Ty(b(0))]),
                    output: app(U32, vec![]),
                }),
            ),
        ),
    ));
    // forall<T> { if (T: Iterator) { exists<U> { T: Iterator<Item = U> } } }:
    // the hypothesis only gives the unevaluated projection for the item.
    let item_is = |out: Ty| {
        for_each(
            1,
            implies(
                vec![
                    fact(implemented(Ty::Bound(1, 0), ITERATOR, vec![])),
                    fact(DomainGoal::Normalize {
                        assoc: ITEM,
                        args: list(vec![Param::Ty(Ty::Bound(1, 0))]),
                        output: proj(ITEM, vec![Ty::Bound(1, 0)]),
                    }),
                ],
                any_of(
                    1,
                    Goal::And(
                        Box::new(leaf(implemented(Ty::Bound(1, 0), ITERATOR, vec![]))),
                        Box::new(Goal::And(
                            Box::new(leaf(DomainGoal::Normalize {
                                assoc: ITEM,
                                args: list(vec![Param::Ty(Ty::Bound(1, 0))]),
                                output: b(0),
                            })),
                            Box::new(leaf(DomainGoal::Equals(Param::Ty(b(0)), Param::Ty(out)))),
                        )),
                    ),
                ),
            ),
        )
    };
    // The item comes back as the unevaluated projection of the
    // placeholder, and as nothing else.
    expect_unique_empty(solve(&pr, item_is(proj(ITEM, vec![Ty::Bound(1, 0)]))));
    expect_no(solve(&pr, item_is(app(U32, vec![]))));
    // forall<T> { if (T: Iterator) { <T>::Item = <T>::Item } }.
    expect_unique_empty(solve(
        &pr,
        for_each(
            1,
            implies(
                vec![fact(implemented(Ty::Bound(1, 0), ITERATOR, vec![]))],
                leaf(DomainGoal::Equals(
                    Param::Ty(proj(ITEM, vec![b(0)])),
                    Param::Ty(proj(ITEM, vec![b(0)])),
                )),
            ),
        ),
    ));
}

#[test]
fn normalize_implied_bound() {
    // trait Clone; trait Iterator where Self: Clone { type Item }: the
    // implied bound becomes the clause `T: Clone :- T: Iterator`.
    let pr = program(
        vec![
            rule(
                vec![ParamKind::Ty],
                implemented(b(0), CLONE, vec![]),
                vec![leaf(implemented(b(0), ITERATOR, vec![]))],
            ),
        ],
        vec![],
    );
    expect_unique_empty(solve(
        &pr,
        for_each(
            1,
            implies(
                vec![
                    fact(implemented(Ty::Bound(1, 0), ITERATOR, vec![])),
                    fact(DomainGoal::Normalize {
                        assoc: ITEM,
                        args: list(vec![Param::Ty(Ty::Bound(1, 0))]),
                        output: app(U32, vec![]),
                    }),
                ],
                leaf(implemented(b(0), CLONE, vec![])),
            ),
        ),
    ));
}

#[test]
fn projection_from_env() {
    // trait Sized; struct Slice<T> where T: Sized;
    // impl<T> Sized for Slice<T>;
    // trait SliceExt { type Item }; impl<T> SliceExt for Slice<T>
    // { type Item = T }.
    let pr = program(
        vec![
            rule(vec![ParamKind::Ty], implemented(app(SLICE, vec![b(0)]), SIZED, vec![]), vec![]),
            rule(
                vec![ParamKind::Ty],
                DomainGoal::Normalize {
                    assoc: ITEM,
                    args: list(vec![Param::Ty(app(SLICE, vec![b(0)]))]),
                    output: b(0),
                },
                vec![],
            ),
        ],
        vec![],
    );
    // forall<T> { if (<Slice<T> as SliceExt>::Item: Sized) { T: Sized } }:
    // the hypothesis, with its projection evaluated, says whatever
    // Slice<T>'s item normalizes to is Sized -- and that item is T.
    expect_unique_empty(solve(
        &pr,
        for_each(
            1,
            implies(
                vec![Clause {
                    binders: list(vec![ParamKind::Ty]),
                    head: implemented(b(0), SIZED, vec![]),
                    body: list(vec![leaf(DomainGoal::Normalize {
                        assoc: ITEM,
                        args: list(vec![Param::Ty(app(SLICE, vec![Ty::Bound(1, 0)]))]),
                        output: b(0),
                    })]),
                }],
                leaf(implemented(b(0), SIZED, vec![])),
            ),
        ),
    ));
}
