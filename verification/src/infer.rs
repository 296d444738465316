//! The inference table: a store of inference variables, each with a kind,
//! a universe, and an optional binding.
//!
//! The table keeps one invariant, `wf`: every stored binding is a fully
//! normalized value — it holds no bound-variable coordinates and mentions
//! only variables that are themselves unbound.  Binding a variable
//! therefore rewrites every stored value once, and resolving a term never
//! has to chase chains: one lookup per variable suffices.

use vstd::prelude::*;
use crate::list::List;
use crate::ir::{Lifetime, Param, ParamKind, Ty, clone_param};

verus! {

/// One inference variable: its kind, the universe it was made in, and its
/// current binding.
pub struct VarInfo {
    pub kind: ParamKind,
    pub universe: u64,
    pub binding: Option<Param>,
}

/// The store of inference variables.  The variable with index `i` is the
/// `i`-th entry of `vars`; `len` caches the length.
pub struct InferenceTable {
    pub len: u64,
    pub vars: List<VarInfo>,
}

impl InferenceTable {
    /// The table's structural invariant.
    pub open spec fn wf(&self) -> bool {
        self.len as nat == self.vars.len() && bindings_ok(&self.vars, &self.vars)
    }

    pub open spec fn lookup(&self, v: u64) -> Option<VarInfo> {
        if (v as nat) < self.vars.len() {
            Some(self.vars.index(v as nat))
        } else {
            None
        }
    }

    /// True when `v` is a variable of this table with no binding yet.
    pub open spec fn unbound(&self, v: u64) -> bool {
        match self.lookup(v) {
            Some(info) => info.binding is None,
            None => false,
        }
    }

    /// The number of unbound variables, the first component of the
    /// termination measure of unification.
    pub open spec fn unbound_count(&self) -> nat {
        count_unbound(&self.vars)
    }
}

pub open spec fn count_unbound(vars: &List<VarInfo>) -> nat
    decreases vars,
{
    match vars {
        List::Nil => 0,
        List::Cons(vi, rest) => (if vi.binding is None {
            1nat
        } else {
            0nat
        }) + count_unbound(rest),
    }
}

/// Every binding stored in `suffix` is a normalized value of `table`.
pub open spec fn bindings_ok(table: &List<VarInfo>, suffix: &List<VarInfo>) -> bool
    decreases suffix,
{
    match suffix {
        List::Nil => true,
        List::Cons(vi, rest) => {
            (match vi.binding {
                Some(b) => value_ok_param(table, &b) && kind_matches(vi.kind, &b),
                None => true,
            }) && bindings_ok(table, rest)
        },
    }
}

pub open spec fn kind_matches(kind: ParamKind, p: &Param) -> bool {
    match p {
        Param::Ty(_) => kind is Ty,
        Param::Lt(_) => kind is Lifetime,
    }
}

pub open spec fn table_lookup(vars: &List<VarInfo>, v: u64) -> Option<VarInfo> {
    if (v as nat) < vars.len() {
        Some(vars.index(v as nat))
    } else {
        None
    }
}

pub open spec fn var_unbound(vars: &List<VarInfo>, v: u64, kind: ParamKind) -> bool {
    match table_lookup(vars, v) {
        Some(info) => info.binding is None && info.kind == kind,
        None => false,
    }
}

// A normalized value: no bound-variable coordinates, and every variable it
// mentions is an unbound variable of the table with the right kind.

pub open spec fn value_ok_ty(vars: &List<VarInfo>, t: &Ty) -> bool
    decreases t,
{
    match t {
        Ty::App { ctor: _, args } => value_ok_params(vars, args),
        Ty::Proj { assoc: _, args } => value_ok_params(vars, args),
        Ty::Var(v) => var_unbound(vars, *v, ParamKind::Ty),
        Ty::Skolem(_) => true,
        Ty::Bound(_, _) => false,
    }
}

pub open spec fn value_ok_lt(vars: &List<VarInfo>, l: &Lifetime) -> bool {
    match l {
        Lifetime::Var(v) => var_unbound(vars, *v, ParamKind::Lifetime),
        Lifetime::Skolem(_) => true,
        Lifetime::Bound(_, _) => false,
    }
}

pub open spec fn value_ok_param(vars: &List<VarInfo>, p: &Param) -> bool
    decreases p,
{
    match p {
        Param::Ty(t) => value_ok_ty(vars, t),
        Param::Lt(l) => value_ok_lt(vars, l),
    }
}

pub open spec fn value_ok_params(vars: &List<VarInfo>, l: &List<Param>) -> bool
    decreases l,
{
    match l {
        List::Nil => true,
        List::Cons(p, rest) => value_ok_param(vars, p) && value_ok_params(vars, rest),
    }
}

// Executable deciders for the normalized-value predicate.

pub fn ok_value_ty(table: &InferenceTable, t: &Ty) -> (r: bool)
    ensures
        r == value_ok_ty(&table.vars, t),
    decreases t,
{
    match t {
        Ty::App { ctor: _, args } => ok_value_params(table, args),
        Ty::Proj { assoc: _, args } => ok_value_params(table, args),
        Ty::Var(v) => is_unbound(table, *v, ParamKind::Ty),
        Ty::Skolem(_) => true,
        Ty::Bound(_, _) => false,
    }
}

pub fn ok_value_lt(table: &InferenceTable, l: &Lifetime) -> (r: bool)
    ensures
        r == value_ok_lt(&table.vars, l),
{
    match l {
        Lifetime::Var(v) => is_unbound(table, *v, ParamKind::Lifetime),
        Lifetime::Skolem(_) => true,
        Lifetime::Bound(_, _) => false,
    }
}

pub fn ok_value_param(table: &InferenceTable, p: &Param) -> (r: bool)
    ensures
        r == value_ok_param(&table.vars, p),
    decreases p,
{
    match p {
        Param::Ty(t) => ok_value_ty(table, t),
        Param::Lt(l) => ok_value_lt(table, l),
    }
}

pub fn ok_value_params(table: &InferenceTable, l: &List<Param>) -> (r: bool)
    ensures
        r == value_ok_params(&table.vars, l),
    decreases l,
{
    match l {
        List::Nil => true,
        List::Cons(p, rest) => ok_value_param(table, p) && ok_value_params(table, rest),
    }
}

fn get_var(vars: &List<VarInfo>, v: u64) -> (r: Option<&VarInfo>)
    ensures
        r == match table_lookup(vars, v) {
            Some(_) => Some(&vars.index(v as nat)),
            None => None::<&VarInfo>,
        },
        r matches Some(info) ==> table_lookup(vars, v) == Some(*info),
        r is None <==> table_lookup(vars, v) is None,
    decreases vars,
{
    match vars {
        List::Nil => None,
        List::Cons(vi, rest) => if v == 0 {
            Some(vi)
        } else {
            get_var(rest, v - 1)
        },
    }
}

pub fn lookup_var(table: &InferenceTable, v: u64) -> (r: Option<&VarInfo>)
    ensures
        r matches Some(info) ==> table.lookup(v) == Some(*info),
        r is None <==> table.lookup(v) is None,
{
    get_var(&table.vars, v)
}

pub fn is_unbound(table: &InferenceTable, v: u64, kind: ParamKind) -> (r: bool)
    ensures
        r == var_unbound(&table.vars, v, kind),
{
    match lookup_var(table, v) {
        Some(info) => info.binding.is_none() && info.kind == kind,
        None => false,
    }
}

// Resolution: replace every bound variable by its stored value.  Under
// `wf` a stored value is itself fully resolved, so one lookup suffices.

pub open spec fn spec_resolve_ty(vars: &List<VarInfo>, t: &Ty) -> Ty
    decreases t,
{
    match t {
        Ty::App { ctor, args } => Ty::App {
            ctor: *ctor,
            args: Box::new(spec_resolve_params(vars, args)),
        },
        Ty::Proj { assoc, args } => Ty::Proj {
            assoc: *assoc,
            args: Box::new(spec_resolve_params(vars, args)),
        },
        Ty::Var(v) => match table_lookup(vars, *v) {
            Some(info) => match info.binding {
                Some(Param::Ty(t2)) => t2,
                _ => Ty::Var(*v),
            },
            None => Ty::Var(*v),
        },
        Ty::Skolem(u) => Ty::Skolem(*u),
        Ty::Bound(d, i) => Ty::Bound(*d, *i),
    }
}

pub open spec fn spec_resolve_lt(vars: &List<VarInfo>, l: &Lifetime) -> Lifetime {
    match l {
        Lifetime::Var(v) => match table_lookup(vars, *v) {
            Some(info) => match info.binding {
                Some(Param::Lt(l2)) => l2,
                _ => Lifetime::Var(*v),
            },
            None => Lifetime::Var(*v),
        },
        Lifetime::Skolem(u) => Lifetime::Skolem(*u),
        Lifetime::Bound(d, i) => Lifetime::Bound(*d, *i),
    }
}

pub open spec fn spec_resolve_param(vars: &List<VarInfo>, p: &Param) -> Param
    decreases p,
{
    match p {
        Param::Ty(t) => Param::Ty(spec_resolve_ty(vars, t)),
        Param::Lt(l) => Param::Lt(spec_resolve_lt(vars, l)),
    }
}

pub open spec fn spec_resolve_params(vars: &List<VarInfo>, l: &List<Param>) -> List<Param>
    decreases l,
{
    match l {
        List::Nil => List::Nil,
        List::Cons(p, rest) => List::Cons(
            spec_resolve_param(vars, p),
            Box::new(spec_resolve_params(vars, rest)),
        ),
    }
}

pub fn resolve_ty(table: &InferenceTable, t: &Ty) -> (r: Ty)
    ensures
        r == spec_resolve_ty(&table.vars, t),
    decreases t,
{
    match t {
        Ty::App { ctor, args } => Ty::App {
            ctor: *ctor,
            args: Box::new(resolve_params(table, args)),
        },
        Ty::Proj { assoc, args } => Ty::Proj {
            assoc: *assoc,
            args: Box::new(resolve_params(table, args)),
        },
        Ty::Var(v) => match lookup_var(table, *v) {
            Some(info) => match &info.binding {
                Some(Param::Ty(t2)) => crate::ir::clone_ty(t2),
                _ => Ty::Var(*v),
            },
            None => Ty::Var(*v),
        },
        Ty::Skolem(u) => Ty::Skolem(*u),
        Ty::Bound(d, i) => Ty::Bound(*d, *i),
    }
}

pub fn resolve_lt(table: &InferenceTable, l: &Lifetime) -> (r: Lifetime)
    ensures
        r == spec_resolve_lt(&table.vars, l),
{
    match l {
        Lifetime::Var(v) => match lookup_var(table, *v) {
            Some(info) => match &info.binding {
                Some(Param::Lt(l2)) => crate::ir::clone_lt(l2),
                _ => Lifetime::Var(*v),
            },
            None => Lifetime::Var(*v),
        },
        Lifetime::Skolem(u) => Lifetime::Skolem(*u),
        Lifetime::Bound(d, i) => Lifetime::Bound(*d, *i),
    }
}

pub fn resolve_param(table: &InferenceTable, p: &Param) -> (r: Param)
    ensures
        r == spec_resolve_param(&table.vars, p),
    decreases p,
{
    match p {
        Param::Ty(t) => Param::Ty(resolve_ty(table, t)),
        Param::Lt(l) => Param::Lt(resolve_lt(table, l)),
    }
}

pub fn resolve_params(table: &InferenceTable, l: &List<Param>) -> (r: List<Param>)
    ensures
        r == spec_resolve_params(&table.vars, l),
    decreases l,
{
    match l {
        List::Nil => List::Nil,
        List::Cons(p, rest) => List::Cons(
            resolve_param(table, p),
            Box::new(resolve_params(table, rest)),
        ),
    }
}

// Does a term mention the variable `v`?  Used for the occurs check.

pub open spec fn mentions_ty(t: &Ty, v: u64) -> bool
    decreases t,
{
    match t {
        Ty::App { ctor: _, args } => mentions_params(args, v),
        Ty::Proj { assoc: _, args } => mentions_params(args, v),
        Ty::Var(w) => *w == v,
        Ty::Skolem(_) => false,
        Ty::Bound(_, _) => false,
    }
}

pub open spec fn mentions_lt(l: &Lifetime, v: u64) -> bool {
    match l {
        Lifetime::Var(w) => *w == v,
        _ => false,
    }
}

pub open spec fn mentions_param(p: &Param, v: u64) -> bool
    decreases p,
{
    match p {
        Param::Ty(t) => mentions_ty(t, v),
        Param::Lt(l) => mentions_lt(l, v),
    }
}

pub open spec fn mentions_params(l: &List<Param>, v: u64) -> bool
    decreases l,
{
    match l {
        List::Nil => false,
        List::Cons(p, rest) => mentions_param(p, v) || mentions_params(rest, v),
    }
}

pub fn occurs_ty(t: &Ty, v: u64) -> (r: bool)
    ensures
        r == mentions_ty(t, v),
    decreases t,
{
    match t {
        Ty::App { ctor: _, args } => occurs_params(args, v),
        Ty::Proj { assoc: _, args } => occurs_params(args, v),
        Ty::Var(w) => *w == v,
        Ty::Skolem(_) => false,
        Ty::Bound(_, _) => false,
    }
}

pub fn occurs_param(p: &Param, v: u64) -> (r: bool)
    ensures
        r == mentions_param(p, v),
    decreases p,
{
    match p {
        Param::Ty(t) => occurs_ty(t, v),
        Param::Lt(l) => match l {
            Lifetime::Var(w) => *w == v,
            _ => false,
        },
    }
}

pub fn occurs_params(l: &List<Param>, v: u64) -> (r: bool)
    ensures
        r == mentions_params(l, v),
    decreases l,
{
    match l {
        List::Nil => false,
        List::Cons(p, rest) => occurs_param(p, v) || occurs_params(rest, v),
    }
}

// Substitution of one variable by a normalized value, used when a binding
// is recorded: every stored value is rewritten so that the table never
// holds a chain.

pub open spec fn spec_subst_ty(t: &Ty, v: u64, value: &Param) -> Ty
    decreases t,
{
    match t {
        Ty::App { ctor, args } => Ty::App {
            ctor: *ctor,
            args: Box::new(spec_subst_params(args, v, value)),
        },
        Ty::Proj { assoc, args } => Ty::Proj {
            assoc: *assoc,
            args: Box::new(spec_subst_params(args, v, value)),
        },
        Ty::Var(w) => if *w == v {
            match value {
                Param::Ty(t2) => *t2,
                Param::Lt(_) => Ty::Var(*w),
            }
        } else {
            Ty::Var(*w)
        },
        Ty::Skolem(u) => Ty::Skolem(*u),
        Ty::Bound(d, i) => Ty::Bound(*d, *i),
    }
}

pub open spec fn spec_subst_lt(l: &Lifetime, v: u64, value: &Param) -> Lifetime {
    match l {
        Lifetime::Var(w) => if *w == v {
            match value {
                Param::Lt(l2) => *l2,
                Param::Ty(_) => Lifetime::Var(*w),
            }
        } else {
            Lifetime::Var(*w)
        },
        Lifetime::Skolem(u) => Lifetime::Skolem(*u),
        Lifetime::Bound(d, i) => Lifetime::Bound(*d, *i),
    }
}

pub open spec fn spec_subst_param(p: &Param, v: u64, value: &Param) -> Param
    decreases p,
{
    match p {
        Param::Ty(t) => Param::Ty(spec_subst_ty(t, v, value)),
        Param::Lt(l) => Param::Lt(spec_subst_lt(l, v, value)),
    }
}

pub open spec fn spec_subst_params(l: &List<Param>, v: u64, value: &Param) -> List<Param>
    decreases l,
{
    match l {
        List::Nil => List::Nil,
        List::Cons(p, rest) => List::Cons(
            spec_subst_param(p, v, value),
            Box::new(spec_subst_params(rest, v, value)),
        ),
    }
}

/// Rewrite the stored binding of one entry.
pub open spec fn subst_entry(vi: VarInfo, v: u64, value: &Param) -> VarInfo {
    VarInfo {
        kind: vi.kind,
        universe: vi.universe,
        binding: match vi.binding {
            Some(b) => Some(spec_subst_param(&b, v, value)),
            None => None,
        },
    }
}

/// Rewrite every stored binding, substituting `value` for variable `v`.
pub open spec fn spec_subst_all(vars: &List<VarInfo>, v: u64, value: &Param) -> List<VarInfo>
    decreases vars,
{
    match vars {
        List::Nil => List::Nil,
        List::Cons(vi, rest) => List::Cons(
            subst_entry(*vi, v, value),
            Box::new(spec_subst_all(rest, v, value)),
        ),
    }
}

/// The store after binding variable `v` to `value`: the entry `rel`
/// positions from the head records the binding, every other entry has its
/// stored value rewritten.
pub open spec fn spec_bind_vars(vars: &List<VarInfo>, v: u64, rel: int, value: &Param) -> List<
    VarInfo,
>
    decreases vars,
{
    match vars {
        List::Nil => List::Nil,
        List::Cons(vi, rest) => if rel == 0 {
            List::Cons(
                VarInfo { kind: vi.kind, universe: vi.universe, binding: Some(*value) },
                Box::new(spec_subst_all(rest, v, value)),
            )
        } else {
            List::Cons(
                subst_entry(*vi, v, value),
                Box::new(spec_bind_vars(rest, v, rel - 1, value)),
            )
        },
    }
}

proof fn lemma_subst_all_index(vars: &List<VarInfo>, v: u64, value: &Param, j: nat)
    requires
        j < vars.len(),
    ensures
        spec_subst_all(vars, v, value).len() == vars.len(),
        spec_subst_all(vars, v, value).index(j) == subst_entry(vars.index(j), v, value),
    decreases vars,
{
    match vars {
        List::Nil => {},
        List::Cons(_, rest) => {
            if j > 0 {
                lemma_subst_all_index(rest, v, value, (j - 1) as nat);
            } else {
                lemma_subst_all_len(rest, v, value);
            }
        },
    }
}

proof fn lemma_subst_all_len(vars: &List<VarInfo>, v: u64, value: &Param)
    ensures
        spec_subst_all(vars, v, value).len() == vars.len(),
    decreases vars,
{
    match vars {
        List::Nil => {},
        List::Cons(_, rest) => lemma_subst_all_len(rest, v, value),
    }
}

proof fn lemma_bind_vars_len(vars: &List<VarInfo>, v: u64, rel: int, value: &Param)
    ensures
        spec_bind_vars(vars, v, rel, value).len() == vars.len(),
    decreases vars,
{
    match vars {
        List::Nil => {},
        List::Cons(_, rest) => {
            if rel == 0 {
                lemma_subst_all_len(rest, v, value);
            } else {
                lemma_bind_vars_len(rest, v, rel - 1, value);
            }
        },
    }
}

proof fn lemma_bind_vars_index(vars: &List<VarInfo>, v: u64, rel: int, value: &Param, j: nat)
    requires
        j < vars.len(),
    ensures
        spec_bind_vars(vars, v, rel, value).len() == vars.len(),
        spec_bind_vars(vars, v, rel, value).index(j) == if j == rel {
            VarInfo {
                kind: vars.index(j).kind,
                universe: vars.index(j).universe,
                binding: Some(*value),
            }
        } else {
            subst_entry(vars.index(j), v, value)
        },
    decreases vars,
{
    lemma_bind_vars_len(vars, v, rel, value);
    match vars {
        List::Nil => {},
        List::Cons(_, rest) => {
            if rel == 0 {
                if j > 0 {
                    lemma_subst_all_index(rest, v, value, (j - 1) as nat);
                }
            } else {
                if j > 0 {
                    lemma_bind_vars_index(rest, v, rel - 1, value, (j - 1) as nat);
                }
            }
        },
    }
}

proof fn lemma_subst_all_count(vars: &List<VarInfo>, v: u64, value: &Param)
    ensures
        count_unbound(&spec_subst_all(vars, v, value)) == count_unbound(vars),
    decreases vars,
{
    match vars {
        List::Nil => {},
        List::Cons(_, rest) => lemma_subst_all_count(rest, v, value),
    }
}

proof fn lemma_bind_vars_count(vars: &List<VarInfo>, v: u64, rel: int, value: &Param)
    requires
        0 <= rel < vars.len(),
        vars.index(rel as nat).binding is None,
    ensures
        count_unbound(&spec_bind_vars(vars, v, rel, value)) + 1 == count_unbound(vars),
    decreases vars,
{
    match vars {
        List::Nil => {},
        List::Cons(_, rest) => {
            if rel == 0 {
                lemma_subst_all_count(rest, v, value);
            } else {
                lemma_bind_vars_count(rest, v, rel - 1, value);
            }
        },
    }
}

// After the rewrite, a value that did not mention `v` is still normalized.

proof fn lemma_ok_after_bind_ty(vars: &List<VarInfo>, v: u64, rel: int, value: &Param, t: &Ty)
    requires
        rel == v as int,
        value_ok_ty(vars, t),
        !mentions_ty(t, v),
    ensures
        value_ok_ty(&spec_bind_vars(vars, v, rel, value), t),
    decreases t,
{
    match t {
        Ty::App { ctor: _, args } => lemma_ok_after_bind_params(vars, v, rel, value, args),
        Ty::Proj { assoc: _, args } => lemma_ok_after_bind_params(vars, v, rel, value, args),
        Ty::Var(w) => {
            lemma_bind_vars_index(vars, v, rel, value, *w as nat);
        },
        _ => {},
    }
}

proof fn lemma_ok_after_bind_lt(vars: &List<VarInfo>, v: u64, rel: int, value: &Param, l: &Lifetime)
    requires
        rel == v as int,
        value_ok_lt(vars, l),
        !mentions_lt(l, v),
    ensures
        value_ok_lt(&spec_bind_vars(vars, v, rel, value), l),
{
    match l {
        Lifetime::Var(w) => {
            lemma_bind_vars_index(vars, v, rel, value, *w as nat);
        },
        _ => {},
    }
}

proof fn lemma_ok_after_bind_param(vars: &List<VarInfo>, v: u64, rel: int, value: &Param, p: &Param)
    requires
        rel == v as int,
        value_ok_param(vars, p),
        !mentions_param(p, v),
    ensures
        value_ok_param(&spec_bind_vars(vars, v, rel, value), p),
    decreases p,
{
    match p {
        Param::Ty(t) => lemma_ok_after_bind_ty(vars, v, rel, value, t),
        Param::Lt(l) => lemma_ok_after_bind_lt(vars, v, rel, value, l),
    }
}

proof fn lemma_ok_after_bind_params(
    vars: &List<VarInfo>,
    v: u64,
    rel: int,
    value: &Param,
    l: &List<Param>,
)
    requires
        rel == v as int,
        value_ok_params(vars, l),
        !mentions_params(l, v),
    ensures
        value_ok_params(&spec_bind_vars(vars, v, rel, value), l),
    decreases l,
{
    match l {
        List::Nil => {},
        List::Cons(p, rest) => {
            lemma_ok_after_bind_param(vars, v, rel, value, p);
            lemma_ok_after_bind_params(vars, v, rel, value, rest);
        },
    }
}

// Substituting a normalized value that does not mention `v` into another
// normalized value yields a value normalized for the rewritten store.

proof fn lemma_subst_ok_ty(vars: &List<VarInfo>, v: u64, rel: int, value: &Param, t: &Ty)
    requires
        matches!(table_lookup(vars, v), Some(vi) if kind_matches(vi.kind, value)),
        rel == v as int,
        value_ok_ty(vars, t),
        value_ok_param(vars, value),
        !mentions_param(value, v),
    ensures
        value_ok_ty(&spec_bind_vars(vars, v, rel, value), &spec_subst_ty(t, v, value)),
    decreases t,
{
    match t {
        Ty::App { ctor: _, args } => lemma_subst_ok_params(vars, v, rel, value, args),
        Ty::Proj { assoc: _, args } => lemma_subst_ok_params(vars, v, rel, value, args),
        Ty::Var(w) => {
            if *w == v {
                lemma_ok_after_bind_param(vars, v, rel, value, value);
            } else {
                lemma_bind_vars_index(vars, v, rel, value, *w as nat);
            }
        },
        _ => {},
    }
}

proof fn lemma_subst_ok_lt(vars: &List<VarInfo>, v: u64, rel: int, value: &Param, l: &Lifetime)
    requires
        matches!(table_lookup(vars, v), Some(vi) if kind_matches(vi.kind, value)),
        rel == v as int,
        value_ok_lt(vars, l),
        value_ok_param(vars, value),
        !mentions_param(value, v),
    ensures
        value_ok_lt(&spec_bind_vars(vars, v, rel, value), &spec_subst_lt(l, v, value)),
{
    match l {
        Lifetime::Var(w) => {
            if *w == v {
                lemma_ok_after_bind_param(vars, v, rel, value, value);
            } else {
                lemma_bind_vars_index(vars, v, rel, value, *w as nat);
            }
        },
        _ => {},
    }
}

proof fn lemma_subst_ok_param(vars: &List<VarInfo>, v: u64, rel: int, value: &Param, p: &Param)
    requires
        matches!(table_lookup(vars, v), Some(vi) if kind_matches(vi.kind, value)),
        rel == v as int,
        value_ok_param(vars, p),
        value_ok_param(vars, value),
        !mentions_param(value, v),
    ensures
        value_ok_param(&spec_bind_vars(vars, v, rel, value), &spec_subst_param(p, v, value)),
    decreases p,
{
    match p {
        Param::Ty(t) => lemma_subst_ok_ty(vars, v, rel, value, t),
        Param::Lt(l) => lemma_subst_ok_lt(vars, v, rel, value, l),
    }
}

proof fn lemma_subst_ok_params(
    vars: &List<VarInfo>,
    v: u64,
    rel: int,
    value: &Param,
    l: &List<Param>,
)
    requires
        matches!(table_lookup(vars, v), Some(vi) if kind_matches(vi.kind, value)),
        rel == v as int,
        value_ok_params(vars, l),
        value_ok_param(vars, value),
        !mentions_param(value, v),
    ensures
        value_ok_params(&spec_bind_vars(vars, v, rel, value), &spec_subst_params(l, v, value)),
    decreases l,
{
    match l {
        List::Nil => {},
        List::Cons(p, rest) => {
            lemma_subst_ok_param(vars, v, rel, value, p);
            lemma_subst_ok_params(vars, v, rel, value, rest);
        },
    }
}

// The rewritten store is well formed again.

proof fn lemma_bind_suffix_ok(
    vars: &List<VarInfo>,
    suffix: &List<VarInfo>,
    v: u64,
    srel: int,
    rel: int,
    value: &Param,
)
    requires
        matches!(table_lookup(vars, v), Some(vi) if kind_matches(vi.kind, value)),
        rel == v as int,
        bindings_ok(vars, suffix),
        value_ok_param(vars, value),
        !mentions_param(value, v),
        0 <= srel < suffix.len() ==> kind_matches(suffix.index(srel as nat).kind, value),
    ensures
        bindings_ok(
            &spec_bind_vars(vars, v, rel, value),
            &spec_bind_vars(suffix, v, srel, value),
        ),
    decreases suffix,
{
    match suffix {
        List::Nil => {},
        List::Cons(vi, rest) => {
            lemma_bind_suffix_ok(vars, rest, v, srel - 1, rel, value);
            if srel == 0 {
                lemma_ok_after_bind_param(vars, v, rel, value, value);
                lemma_subst_suffix_ok(vars, rest, v, rel, value);
            } else {
                match vi.binding {
                    Some(b) => {
                        lemma_subst_ok_param(vars, v, rel, value, &b);
                    },
                    None => {},
                }
            }
        },
    }
}

proof fn lemma_subst_suffix_ok(
    vars: &List<VarInfo>,
    suffix: &List<VarInfo>,
    v: u64,
    rel: int,
    value: &Param,
)
    requires
        matches!(table_lookup(vars, v), Some(vi) if kind_matches(vi.kind, value)),
        rel == v as int,
        bindings_ok(vars, suffix),
        value_ok_param(vars, value),
        !mentions_param(value, v),
    ensures
        bindings_ok(&spec_bind_vars(vars, v, rel, value), &spec_subst_all(suffix, v, value)),
    decreases suffix,
{
    match suffix {
        List::Nil => {},
        List::Cons(vi, rest) => {
            lemma_subst_suffix_ok(vars, rest, v, rel, value);
            match vi.binding {
                Some(b) => {
                    lemma_subst_ok_param(vars, v, rel, value, &b);
                },
                None => {},
            }
        },
    }
}

// Executable mirrors of substitution and binding.

fn subst_exec_ty(t: &Ty, v: u64, value: &Param) -> (r: Ty)
    ensures
        r == spec_subst_ty(t, v, value),
    decreases t,
{
    match t {
        Ty::App { ctor, args } => Ty::App {
            ctor: *ctor,
            args: Box::new(subst_exec_params(args, v, value)),
        },
        Ty::Proj { assoc, args } => Ty::Proj {
            assoc: *assoc,
            args: Box::new(subst_exec_params(args, v, value)),
        },
        Ty::Var(w) => if *w == v {
            match value {
                Param::Ty(t2) => crate::ir::clone_ty(t2),
                Param::Lt(_) => Ty::Var(*w),
            }
        } else {
            Ty::Var(*w)
        },
        Ty::Skolem(u) => Ty::Skolem(*u),
        Ty::Bound(d, i) => Ty::Bound(*d, *i),
    }
}

fn subst_exec_lt(l: &Lifetime, v: u64, value: &Param) -> (r: Lifetime)
    ensures
        r == spec_subst_lt(l, v, value),
{
    match l {
        Lifetime::Var(w) => if *w == v {
            match value {
                Param::Lt(l2) => crate::ir::clone_lt(l2),
                Param::Ty(_) => Lifetime::Var(*w),
            }
        } else {
            Lifetime::Var(*w)
        },
        Lifetime::Skolem(u) => Lifetime::Skolem(*u),
        Lifetime::Bound(d, i) => Lifetime::Bound(*d, *i),
    }
}

fn subst_exec_param(p: &Param, v: u64, value: &Param) -> (r: Param)
    ensures
        r == spec_subst_param(p, v, value),
    decreases p,
{
    match p {
        Param::Ty(t) => Param::Ty(subst_exec_ty(t, v, value)),
        Param::Lt(l) => Param::Lt(subst_exec_lt(l, v, value)),
    }
}

fn subst_exec_params(l: &List<Param>, v: u64, value: &Param) -> (r: List<Param>)
    ensures
        r == spec_subst_params(l, v, value),
    decreases l,
{
    match l {
        List::Nil => List::Nil,
        List::Cons(p, rest) => List::Cons(
            subst_exec_param(p, v, value),
            Box::new(subst_exec_params(rest, v, value)),
        ),
    }
}

fn subst_entry_exec(vi: &VarInfo, v: u64, value: &Param) -> (r: VarInfo)
    ensures
        r == subst_entry(*vi, v, value),
{
    VarInfo {
        kind: vi.kind,
        universe: vi.universe,
        binding: match &vi.binding {
            Some(b) => Some(subst_exec_param(b, v, value)),
            None => None,
        },
    }
}

fn subst_all_exec(vars: &List<VarInfo>, v: u64, value: &Param) -> (r: List<VarInfo>)
    ensures
        r == spec_subst_all(vars, v, value),
    decreases vars,
{
    match vars {
        List::Nil => List::Nil,
        List::Cons(vi, rest) => List::Cons(
            subst_entry_exec(vi, v, value),
            Box::new(subst_all_exec(rest, v, value)),
        ),
    }
}

fn bind_vars_exec(vars: &List<VarInfo>, v: u64, rel: u64, value: &Param) -> (r: List<VarInfo>)
    ensures
        r == spec_bind_vars(vars, v, rel as int, value),
    decreases vars,
{
    match vars {
        List::Nil => List::Nil,
        List::Cons(vi, rest) => if rel == 0 {
            List::Cons(
                VarInfo { kind: vi.kind, universe: vi.universe, binding: Some(clone_param(value)) },
                Box::new(subst_all_exec(rest, v, value)),
            )
        } else {
            List::Cons(
                subst_entry_exec(vi, v, value),
                Box::new(bind_vars_exec(rest, v, rel - 1, value)),
            )
        },
    }
}

/// Record the binding `v := value` and rewrite every stored value, so the
/// store stays normalized.
pub fn bind_var(table: &InferenceTable, v: u64, value: &Param) -> (r: InferenceTable)
    requires
        table.wf(),
        match table_lookup(&table.vars, v) {
            Some(vi) => vi.binding is None && kind_matches(vi.kind, value),
            None => false,
        },
        value_ok_param(&table.vars, value),
        !mentions_param(value, v),
    ensures
        r.len == table.len,
        r.vars == spec_bind_vars(&table.vars, v, v as int, value),
        r.wf(),
        r.unbound_count() + 1 == table.unbound_count(),
{
    let r = InferenceTable { len: table.len, vars: bind_vars_exec(&table.vars, v, v, value) };
    proof {
        lemma_bind_vars_len(&table.vars, v, v as int, value);
        lemma_bind_vars_count(&table.vars, v, v as int, value);
        lemma_bind_suffix_ok(&table.vars, &table.vars, v, v as int, v as int, value);
    }
    r
}

/// A stored binding, looked up by index, is a normalized value.
pub proof fn lemma_bindings_lookup(table: &List<VarInfo>, suffix: &List<VarInfo>, j: nat)
    requires
        bindings_ok(table, suffix),
        j < suffix.len(),
    ensures
        suffix.index(j).binding matches Some(b) ==> value_ok_param(table, &b) && kind_matches(
            suffix.index(j).kind,
            &b,
        ),
    decreases suffix,
{
    match suffix {
        List::Nil => {},
        List::Cons(_, rest) => {
            if j > 0 {
                lemma_bindings_lookup(table, rest, (j - 1) as nat);
            }
        },
    }
}

// Resolution is the identity on normalized values, and idempotent under a
// well-formed store.

pub proof fn lemma_resolve_id_ty(vars: &List<VarInfo>, t: &Ty)
    requires
        value_ok_ty(vars, t),
    ensures
        spec_resolve_ty(vars, t) == *t,
    decreases t,
{
    match t {
        Ty::App { ctor: _, args } => lemma_resolve_id_params(vars, args),
        Ty::Proj { assoc: _, args } => lemma_resolve_id_params(vars, args),
        _ => {},
    }
}

pub proof fn lemma_resolve_id_lt(vars: &List<VarInfo>, l: &Lifetime)
    requires
        value_ok_lt(vars, l),
    ensures
        spec_resolve_lt(vars, l) == *l,
{
}

pub proof fn lemma_resolve_id_param(vars: &List<VarInfo>, p: &Param)
    requires
        value_ok_param(vars, p),
    ensures
        spec_resolve_param(vars, p) == *p,
    decreases p,
{
    match p {
        Param::Ty(t) => lemma_resolve_id_ty(vars, t),
        Param::Lt(l) => lemma_resolve_id_lt(vars, l),
    }
}

pub proof fn lemma_resolve_id_params(vars: &List<VarInfo>, l: &List<Param>)
    requires
        value_ok_params(vars, l),
    ensures
        spec_resolve_params(vars, l) == *l,
    decreases l,
{
    match l {
        List::Nil => {},
        List::Cons(p, rest) => {
            lemma_resolve_id_param(vars, p);
            lemma_resolve_id_params(vars, rest);
        },
    }
}

pub proof fn lemma_resolve_idem_ty(vars: &List<VarInfo>, t: &Ty)
    requires
        bindings_ok(vars, vars),
    ensures
        spec_resolve_ty(vars, &spec_resolve_ty(vars, t)) == spec_resolve_ty(vars, t),
    decreases t,
{
    match t {
        Ty::App { ctor: _, args } => lemma_resolve_idem_params(vars, args),
        Ty::Proj { assoc: _, args } => lemma_resolve_idem_params(vars, args),
        Ty::Var(v) => {
            if (*v as nat) < vars.len() {
                lemma_bindings_lookup(vars, vars, *v as nat);
                match vars.index(*v as nat).binding {
                    Some(b) => {
                        match b {
                            Param::Ty(t2) => lemma_resolve_id_ty(vars, &t2),
                            Param::Lt(_) => {},
                        }
                    },
                    None => {},
                }
            }
        },
        _ => {},
    }
}

pub proof fn lemma_resolve_idem_lt(vars: &List<VarInfo>, l: &Lifetime)
    requires
        bindings_ok(vars, vars),
    ensures
        spec_resolve_lt(vars, &spec_resolve_lt(vars, l)) == spec_resolve_lt(vars, l),
{
    match l {
        Lifetime::Var(v) => {
            if (*v as nat) < vars.len() {
                lemma_bindings_lookup(vars, vars, *v as nat);
                match vars.index(*v as nat).binding {
                    Some(b) => {
                        match b {
                            Param::Lt(l2) => lemma_resolve_id_lt(vars, &l2),
                            Param::Ty(_) => {},
                        }
                    },
                    None => {},
                }
            }
        },
        _ => {},
    }
}

pub proof fn lemma_resolve_idem_param(vars: &List<VarInfo>, p: &Param)
    requires
        bindings_ok(vars, vars),
    ensures
        spec_resolve_param(vars, &spec_resolve_param(vars, p)) == spec_resolve_param(vars, p),
    decreases p,
{
    match p {
        Param::Ty(t) => lemma_resolve_idem_ty(vars, t),
        Param::Lt(l) => lemma_resolve_idem_lt(vars, l),
    }
}

pub proof fn lemma_resolve_idem_params(vars: &List<VarInfo>, l: &List<Param>)
    requires
        bindings_ok(vars, vars),
    ensures
        spec_resolve_params(vars, &spec_resolve_params(vars, l)) == spec_resolve_params(vars, l),
    decreases l,
{
    match l {
        List::Nil => {},
        List::Cons(p, rest) => {
            lemma_resolve_idem_param(vars, p);
            lemma_resolve_idem_params(vars, rest);
        },
    }
}

// Universe demotion.  Binding a variable of universe `k` to a value whose
// free variables live in higher universes first demotes those variables to
// `k`, so no later binding can smuggle a deeper skolem past the variable.

/// Two stores with the same kinds and bindings; only universes may differ.
pub open spec fn same_binds(a: &List<VarInfo>, b: &List<VarInfo>) -> bool
    decreases a,
{
    match (a, b) {
        (List::Nil, List::Nil) => true,
        (List::Cons(x, xs), List::Cons(y, ys)) => x.kind == y.kind && x.binding == y.binding
            && same_binds(xs, ys),
        _ => false,
    }
}

proof fn lemma_same_binds_refl(a: &List<VarInfo>)
    ensures
        same_binds(a, a),
    decreases a,
{
    match a {
        List::Nil => {},
        List::Cons(_, rest) => lemma_same_binds_refl(rest),
    }
}

proof fn lemma_same_binds_trans(a: &List<VarInfo>, b: &List<VarInfo>, c: &List<VarInfo>)
    requires
        same_binds(a, b),
        same_binds(b, c),
    ensures
        same_binds(a, c),
    decreases a,
{
    match (a, b, c) {
        (List::Cons(_, xs), List::Cons(_, ys), List::Cons(_, zs)) => {
            lemma_same_binds_trans(xs, ys, zs);
        },
        _ => {},
    }
}

proof fn lemma_same_binds_len(a: &List<VarInfo>, b: &List<VarInfo>)
    requires
        same_binds(a, b),
    ensures
        a.len() == b.len(),
    decreases a,
{
    match (a, b) {
        (List::Cons(_, xs), List::Cons(_, ys)) => lemma_same_binds_len(xs, ys),
        _ => {},
    }
}

pub proof fn lemma_same_binds_lookup(a: &List<VarInfo>, b: &List<VarInfo>, j: nat)
    requires
        same_binds(a, b),
        j < a.len(),
    ensures
        b.len() == a.len(),
        a.index(j).kind == b.index(j).kind,
        a.index(j).binding == b.index(j).binding,
    decreases a,
{
    lemma_same_binds_len(a, b);
    match (a, b) {
        (List::Cons(_, xs), List::Cons(_, ys)) => {
            if j > 0 {
                lemma_same_binds_lookup(xs, ys, (j - 1) as nat);
            }
        },
        _ => {},
    }
}

proof fn lemma_same_binds_count(a: &List<VarInfo>, b: &List<VarInfo>)
    requires
        same_binds(a, b),
    ensures
        count_unbound(a) == count_unbound(b),
    decreases a,
{
    match (a, b) {
        (List::Cons(_, xs), List::Cons(_, ys)) => lemma_same_binds_count(xs, ys),
        _ => {},
    }
}

proof fn lemma_same_binds_ok_ty(a: &List<VarInfo>, b: &List<VarInfo>, t: &Ty)
    requires
        same_binds(a, b),
        value_ok_ty(a, t),
    ensures
        value_ok_ty(b, t),
    decreases t,
{
    match t {
        Ty::App { ctor: _, args } => lemma_same_binds_ok_params(a, b, args),
        Ty::Proj { assoc: _, args } => lemma_same_binds_ok_params(a, b, args),
        Ty::Var(v) => {
            lemma_same_binds_lookup(a, b, *v as nat);
        },
        _ => {},
    }
}

proof fn lemma_same_binds_ok_lt(a: &List<VarInfo>, b: &List<VarInfo>, l: &Lifetime)
    requires
        same_binds(a, b),
        value_ok_lt(a, l),
    ensures
        value_ok_lt(b, l),
{
    match l {
        Lifetime::Var(v) => {
            lemma_same_binds_lookup(a, b, *v as nat);
        },
        _ => {},
    }
}

pub proof fn lemma_same_binds_ok_param(a: &List<VarInfo>, b: &List<VarInfo>, p: &Param)
    requires
        same_binds(a, b),
        value_ok_param(a, p),
    ensures
        value_ok_param(b, p),
    decreases p,
{
    match p {
        Param::Ty(t) => lemma_same_binds_ok_ty(a, b, t),
        Param::Lt(l) => lemma_same_binds_ok_lt(a, b, l),
    }
}

pub proof fn lemma_same_binds_ok_params(a: &List<VarInfo>, b: &List<VarInfo>, l: &List<Param>)
    requires
        same_binds(a, b),
        value_ok_params(a, l),
    ensures
        value_ok_params(b, l),
    decreases l,
{
    match l {
        List::Nil => {},
        List::Cons(p, rest) => {
            lemma_same_binds_ok_param(a, b, p);
            lemma_same_binds_ok_params(a, b, rest);
        },
    }
}

proof fn lemma_same_binds_bindings_ok(
    a: &List<VarInfo>,
    b: &List<VarInfo>,
    sa: &List<VarInfo>,
    sb: &List<VarInfo>,
)
    requires
        same_binds(a, b),
        same_binds(sa, sb),
        bindings_ok(a, sa),
    ensures
        bindings_ok(b, sb),
    decreases sa,
{
    match (sa, sb) {
        (List::Cons(x, xs), List::Cons(y, ys)) => {
            lemma_same_binds_bindings_ok(a, b, xs, ys);
            match x.binding {
                Some(bv) => {
                    lemma_same_binds_ok_param(a, b, &bv);
                },
                None => {},
            }
        },
        _ => {},
    }
}

/// The store with the universe of the entry `rel` positions from the head
/// set to `k`.
pub open spec fn spec_set_universe(vars: &List<VarInfo>, rel: int, k: u64) -> List<VarInfo>
    decreases vars,
{
    match vars {
        List::Nil => List::Nil,
        List::Cons(vi, rest) => if rel == 0 {
            List::Cons(VarInfo { kind: vi.kind, universe: k, binding: vi.binding }, *rest)
        } else {
            List::Cons(*vi, Box::new(spec_set_universe(rest, rel - 1, k)))
        },
    }
}

proof fn lemma_setu_same_binds(vars: &List<VarInfo>, rel: int, k: u64)
    ensures
        same_binds(vars, &spec_set_universe(vars, rel, k)),
    decreases vars,
{
    match vars {
        List::Nil => {},
        List::Cons(_, rest) => {
            if rel == 0 {
                lemma_same_binds_refl(rest);
            } else {
                lemma_setu_same_binds(rest, rel - 1, k);
            }
        },
    }
}

fn clone_binding(b: &Option<Param>) -> (r: Option<Param>)
    ensures
        r == *b,
{
    match b {
        Some(p) => Some(clone_param(p)),
        None => None,
    }
}

pub fn clone_vars(vars: &List<VarInfo>) -> (r: List<VarInfo>)
    ensures
        r == *vars,
    decreases vars,
{
    match vars {
        List::Nil => List::Nil,
        List::Cons(vi, rest) => List::Cons(
            VarInfo { kind: vi.kind, universe: vi.universe, binding: clone_binding(&vi.binding) },
            Box::new(clone_vars(rest)),
        ),
    }
}

/// Deep copy of a table, for exploring one candidate per copy.
pub fn clone_table(table: &InferenceTable) -> (r: InferenceTable)
    ensures
        r == *table,
{
    InferenceTable { len: table.len, vars: clone_vars(&table.vars) }
}

fn set_universe_exec(vars: &List<VarInfo>, rel: u64, k: u64) -> (r: List<VarInfo>)
    ensures
        r == spec_set_universe(vars, rel as int, k),
    decreases vars,
{
    match vars {
        List::Nil => List::Nil,
        List::Cons(vi, rest) => if rel == 0 {
            List::Cons(
                VarInfo { kind: vi.kind, universe: k, binding: clone_binding(&vi.binding) },
                Box::new(clone_vars(rest)),
            )
        } else {
            List::Cons(
                VarInfo {
                    kind: vi.kind,
                    universe: vi.universe,
                    binding: clone_binding(&vi.binding),
                },
                Box::new(set_universe_exec(rest, rel - 1, k)),
            )
        },
    }
}

// Demotion of every unbound variable of a value to universe `k` at most.

pub open spec fn spec_demote_ty(vars: List<VarInfo>, t: &Ty, k: u64) -> List<VarInfo>
    decreases t,
{
    match t {
        Ty::App { ctor: _, args } => spec_demote_params(vars, args, k),
        Ty::Proj { assoc: _, args } => spec_demote_params(vars, args, k),
        Ty::Var(v) => match table_lookup(&vars, *v) {
            Some(vi) => if vi.binding is None && vi.universe > k {
                spec_set_universe(&vars, *v as int, k)
            } else {
                vars
            },
            None => vars,
        },
        _ => vars,
    }
}

pub open spec fn spec_demote_lt(vars: List<VarInfo>, l: &Lifetime, k: u64) -> List<VarInfo> {
    match l {
        Lifetime::Var(v) => match table_lookup(&vars, *v) {
            Some(vi) => if vi.binding is None && vi.universe > k {
                spec_set_universe(&vars, *v as int, k)
            } else {
                vars
            },
            None => vars,
        },
        _ => vars,
    }
}

pub open spec fn spec_demote_param(vars: List<VarInfo>, p: &Param, k: u64) -> List<VarInfo>
    decreases p,
{
    match p {
        Param::Ty(t) => spec_demote_ty(vars, t, k),
        Param::Lt(l) => spec_demote_lt(vars, l, k),
    }
}

pub open spec fn spec_demote_params(vars: List<VarInfo>, l: &List<Param>, k: u64) -> List<VarInfo>
    decreases l,
{
    match l {
        List::Nil => vars,
        List::Cons(p, rest) => spec_demote_params(spec_demote_param(vars, p, k), rest, k),
    }
}

pub proof fn lemma_demote_ty_same_binds(vars: List<VarInfo>, t: &Ty, k: u64)
    ensures
        same_binds(&vars, &spec_demote_ty(vars, t, k)),
    decreases t,
{
    match t {
        Ty::App { ctor: _, args } => lemma_demote_params_same_binds(vars, args, k),
        Ty::Proj { assoc: _, args } => lemma_demote_params_same_binds(vars, args, k),
        Ty::Var(v) => {
            lemma_setu_same_binds(&vars, *v as int, k);
            lemma_same_binds_refl(&vars);
        },
        _ => lemma_same_binds_refl(&vars),
    }
}

pub proof fn lemma_demote_lt_same_binds(vars: List<VarInfo>, l: &Lifetime, k: u64)
    ensures
        same_binds(&vars, &spec_demote_lt(vars, l, k)),
{
    match l {
        Lifetime::Var(v) => {
            lemma_setu_same_binds(&vars, *v as int, k);
            lemma_same_binds_refl(&vars);
        },
        _ => lemma_same_binds_refl(&vars),
    }
}

pub proof fn lemma_demote_param_same_binds(vars: List<VarInfo>, p: &Param, k: u64)
    ensures
        same_binds(&vars, &spec_demote_param(vars, p, k)),
    decreases p,
{
    match p {
        Param::Ty(t) => lemma_demote_ty_same_binds(vars, t, k),
        Param::Lt(l) => lemma_demote_lt_same_binds(vars, l, k),
    }
}

pub proof fn lemma_demote_params_same_binds(vars: List<VarInfo>, l: &List<Param>, k: u64)
    ensures
        same_binds(&vars, &spec_demote_params(vars, l, k)),
    decreases l,
{
    match l {
        List::Nil => lemma_same_binds_refl(&vars),
        List::Cons(p, rest) => {
            lemma_demote_param_same_binds(vars, p, k);
            lemma_demote_params_same_binds(spec_demote_param(vars, p, k), rest, k);
            lemma_same_binds_trans(
                &vars,
                &spec_demote_param(vars, p, k),
                &spec_demote_params(spec_demote_param(vars, p, k), rest, k),
            );
        },
    }
}

/// Everything the solver needs to know after a universe-only rewrite.
pub proof fn lemma_same_binds_table(a: &InferenceTable, b: &InferenceTable)
    requires
        a.wf(),
        a.len == b.len,
        same_binds(&a.vars, &b.vars),
    ensures
        b.wf(),
        b.unbound_count() == a.unbound_count(),
{
    lemma_same_binds_len(&a.vars, &b.vars);
    lemma_same_binds_count(&a.vars, &b.vars);
    lemma_same_binds_bindings_ok(&a.vars, &b.vars, &a.vars, &b.vars);
}

fn demote_exec_ty(table: InferenceTable, t: &Ty, k: u64) -> (r: InferenceTable)
    ensures
        r.len == table.len,
        r.vars == spec_demote_ty(table.vars, t, k),
    decreases t,
{
    match t {
        Ty::App { ctor: _, args } => demote_exec_params(table, args, k),
        Ty::Proj { assoc: _, args } => demote_exec_params(table, args, k),
        Ty::Var(v) => {
            let needs = match lookup_var(&table, *v) {
                Some(info) => info.binding.is_none() && info.universe > k,
                None => false,
            };
            if needs {
                InferenceTable { len: table.len, vars: set_universe_exec(&table.vars, *v, k) }
            } else {
                table
            }
        },
        _ => table,
    }
}

fn demote_exec_lt(table: InferenceTable, l: &Lifetime, k: u64) -> (r: InferenceTable)
    ensures
        r.len == table.len,
        r.vars == spec_demote_lt(table.vars, l, k),
{
    match l {
        Lifetime::Var(v) => {
            let needs = match lookup_var(&table, *v) {
                Some(info) => info.binding.is_none() && info.universe > k,
                None => false,
            };
            if needs {
                InferenceTable { len: table.len, vars: set_universe_exec(&table.vars, *v, k) }
            } else {
                table
            }
        },
        _ => table,
    }
}

fn demote_exec_param(table: InferenceTable, p: &Param, k: u64) -> (r: InferenceTable)
    ensures
        r.len == table.len,
        r.vars == spec_demote_param(table.vars, p, k),
    decreases p,
{
    match p {
        Param::Ty(t) => demote_exec_ty(table, t, k),
        Param::Lt(l) => demote_exec_lt(table, l, k),
    }
}

fn demote_exec_params(table: InferenceTable, l: &List<Param>, k: u64) -> (r: InferenceTable)
    ensures
        r.len == table.len,
        r.vars == spec_demote_params(table.vars, l, k),
    decreases l,
{
    match l {
        List::Nil => table,
        List::Cons(p, rest) => {
            let t2 = demote_exec_param(table, p, k);
            demote_exec_params(t2, rest, k)
        },
    }
}

/// Demote every unbound variable of `p` to universe `k` at most.
pub fn demote_param(table: InferenceTable, p: &Param, k: u64) -> (r: InferenceTable)
    requires
        table.wf(),
    ensures
        r.len == table.len,
        r.vars == spec_demote_param(table.vars, p, k),
        r.wf(),
        r.unbound_count() == table.unbound_count(),
        same_binds(&table.vars, &r.vars),
{
    let ghost t0 = table;
    let r = demote_exec_param(table, p, k);
    proof {
        lemma_demote_param_same_binds(t0.vars, p, k);
        lemma_same_binds_table(&t0, &r);
    }
    r
}

// Fresh variables.

pub open spec fn spec_append_var(vars: &List<VarInfo>, vi: VarInfo) -> List<VarInfo>
    decreases vars,
{
    match vars {
        List::Nil => List::Cons(vi, Box::new(List::Nil)),
        List::Cons(x, rest) => List::Cons(*x, Box::new(spec_append_var(rest, vi))),
    }
}

proof fn lemma_append_index(vars: &List<VarInfo>, vi: VarInfo, j: nat)
    requires
        j <= vars.len(),
    ensures
        spec_append_var(vars, vi).len() == vars.len() + 1,
        j < vars.len() ==> spec_append_var(vars, vi).index(j) == vars.index(j),
        j == vars.len() ==> spec_append_var(vars, vi).index(j) == vi,
    decreases vars,
{
    match vars {
        List::Nil => {},
        List::Cons(_, rest) => {
            if j > 0 {
                lemma_append_index(rest, vi, (j - 1) as nat);
            } else {
                lemma_append_index(rest, vi, 0);
            }
        },
    }
}

proof fn lemma_append_ok_ty(vars: &List<VarInfo>, vi: VarInfo, t: &Ty)
    requires
        value_ok_ty(vars, t),
    ensures
        value_ok_ty(&spec_append_var(vars, vi), t),
    decreases t,
{
    match t {
        Ty::App { ctor: _, args } => lemma_append_ok_params(vars, vi, args),
        Ty::Proj { assoc: _, args } => lemma_append_ok_params(vars, vi, args),
        Ty::Var(v) => {
            lemma_append_index(vars, vi, *v as nat);
        },
        _ => {},
    }
}

proof fn lemma_append_ok_lt(vars: &List<VarInfo>, vi: VarInfo, l: &Lifetime)
    requires
        value_ok_lt(vars, l),
    ensures
        value_ok_lt(&spec_append_var(vars, vi), l),
{
    match l {
        Lifetime::Var(v) => {
            lemma_append_index(vars, vi, *v as nat);
        },
        _ => {},
    }
}

proof fn lemma_append_ok_param(vars: &List<VarInfo>, vi: VarInfo, p: &Param)
    requires
        value_ok_param(vars, p),
    ensures
        value_ok_param(&spec_append_var(vars, vi), p),
    decreases p,
{
    match p {
        Param::Ty(t) => lemma_append_ok_ty(vars, vi, t),
        Param::Lt(l) => lemma_append_ok_lt(vars, vi, l),
    }
}

proof fn lemma_append_ok_params(vars: &List<VarInfo>, vi: VarInfo, l: &List<Param>)
    requires
        value_ok_params(vars, l),
    ensures
        value_ok_params(&spec_append_var(vars, vi), l),
    decreases l,
{
    match l {
        List::Nil => {},
        List::Cons(p, rest) => {
            lemma_append_ok_param(vars, vi, p);
            lemma_append_ok_params(vars, vi, rest);
        },
    }
}

proof fn lemma_append_bindings_ok(vars: &List<VarInfo>, suffix: &List<VarInfo>, vi: VarInfo)
    requires
        bindings_ok(vars, suffix),
        vi.binding is None,
    ensures
        bindings_ok(&spec_append_var(vars, vi), &spec_append_var(suffix, vi)),
    decreases suffix,
{
    match suffix {
        List::Nil => {
            let appended = List::Cons(vi, Box::new(List::<VarInfo>::Nil));
            assert(spec_append_var(suffix, vi) == appended);
            assert(bindings_ok(&spec_append_var(vars, vi), &appended)) by {
                reveal_with_fuel(bindings_ok, 2);
            }
        },
        List::Cons(x, rest) => {
            lemma_append_bindings_ok(vars, rest, vi);
            match x.binding {
                Some(b) => {
                    lemma_append_ok_param(vars, vi, &b);
                },
                None => {},
            }
        },
    }
}

fn append_var_exec(vars: &List<VarInfo>, kind: ParamKind, universe: u64) -> (r: List<VarInfo>)
    ensures
        r == spec_append_var(vars, VarInfo { kind, universe, binding: None }),
    decreases vars,
{
    match vars {
        List::Nil => List::Cons(
            VarInfo { kind, universe, binding: None },
            Box::new(List::Nil),
        ),
        List::Cons(vi, rest) => List::Cons(
            VarInfo { kind: vi.kind, universe: vi.universe, binding: clone_binding(&vi.binding) },
            Box::new(append_var_exec(rest, kind, universe)),
        ),
    }
}

/// Make a fresh, unbound variable in the given universe.  Fails only when
/// the variable counter is exhausted.
pub fn new_var(table: InferenceTable, kind: ParamKind, universe: u64) -> (r: Option<
    (InferenceTable, u64),
>)
    requires
        table.wf(),
    ensures
        match r {
            Some((t2, v)) => {
                &&& t2.wf()
                &&& v == table.len
                &&& t2.len == table.len + 1
                &&& t2.vars == spec_append_var(
                    &table.vars,
                    VarInfo { kind, universe, binding: None },
                )
                &&& var_unbound(&t2.vars, v, kind)
                &&& table_lookup(&t2.vars, v) == Some(VarInfo { kind, universe, binding: None })
            },
            None => table.len == u64::MAX,
        },
{
    if table.len == u64::MAX {
        None
    } else {
        let v = table.len;
        let vars2 = append_var_exec(&table.vars, kind, universe);
        proof {
            let vi = VarInfo { kind, universe, binding: None };
            lemma_append_index(&table.vars, vi, table.len as nat);
            lemma_append_bindings_ok(&table.vars, &table.vars, vi);
        }
        Some((InferenceTable { len: table.len + 1, vars: vars2 }, v))
    }
}

} // verus!
