//! Dominance-order comparisons for multi-objective optimization.
//!
//! The dominance relation is a partial order over candidate solutions:
//! given `a` and `b`, either `a` dominates `b`, or `b` dominates `a`, or
//! neither dominates the other. Non-dominated sort algorithms use this
//! relation to compute Pareto fronts.

pub mod comparators;
pub mod dominance_ord;

pub use dominance_ord::DominanceOrd;
