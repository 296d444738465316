//! A goal-directed logic solver over structural type terms.
//!
//! The solver decides whether a typed claim (for instance "type `T`
//! implements capability `C`") is provable from a fixed set of program
//! clauses.  It answers with a unique proof carrying a most-general
//! substitution and residual lifetime constraints, with an ambiguous
//! result, or with definite unprovability; a configurable recursion
//! ceiling turns runaway searches into a distinct overflow error.

pub mod list;
pub mod ir;
pub mod solution;
pub mod infer;
pub mod unify;
pub mod canonical;
pub mod solver;
pub mod laws;
