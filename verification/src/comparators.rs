//! Concrete dominance comparators over vectors of objective values.
//!
//! [`ObjectivesComparator`] is configured with one optimization
//! direction per objective and supplies `dominates`, keeping the
//! derived three-valued comparison. [`PairMinComparator`] compares
//! two-objective minimization solutions and supplies `dominance_ord`
//! directly in a single pass, deriving `dominates` from it.

use vstd::prelude::*;
use core::cmp::Ordering;
use crate::dominance_ord::DominanceOrd;

verus! {

/// Whether a lower or a higher objective value is the better one.
#[derive(Clone, Copy, PartialEq, Eq, Structural, Debug)]
pub enum Direction {
    /// Lower values are better.
    Minimize,
    /// Higher values are better.
    Maximize,
}

/// True when value `x` is strictly better than value `y` under
/// direction `d`.
pub open spec fn strictly_better(d: Direction, x: u64, y: u64) -> bool {
    match d {
        Direction::Minimize => x < y,
        Direction::Maximize => x > y,
    }
}

/// Returns whether `x` is strictly better than `y` under direction `d`.
fn is_strictly_better(d: Direction, x: u64, y: u64) -> (r: bool)
    ensures
        r == strictly_better(d, x, y),
{
    match d {
        Direction::Minimize => x < y,
        Direction::Maximize => x > y,
    }
}

/// A dominance comparator over solutions given as vectors of objective
/// values, configured once with the optimization direction of each
/// objective. A solution dominates another when both have exactly one
/// value per configured objective, the first is nowhere worse, and it
/// is strictly better on at least one objective.
pub struct ObjectivesComparator {
    /// The optimization direction of each objective, in order.
    pub directions: Vec<Direction>,
}

impl ObjectivesComparator {
    /// Creates a comparator for the given objective directions.
    pub fn new(directions: Vec<Direction>) -> (r: Self)
        ensures
            r.directions == directions,
    {
        ObjectivesComparator { directions }
    }
}

impl DominanceOrd<Vec<u64>> for ObjectivesComparator {
    open spec fn dominates_spec(&self, a: &Vec<u64>, b: &Vec<u64>) -> bool {
        &&& a@.len() == self.directions@.len()
        &&& b@.len() == self.directions@.len()
        &&& forall|i: int|
            0 <= i < a@.len() ==> !strictly_better(self.directions@[i], b@[i], a@[i])
        &&& exists|i: int| 0 <= i < a@.len() && strictly_better(self.directions@[i], a@[i], b@[i])
    }

    proof fn lemma_asymmetric(&self, a: &Vec<u64>, b: &Vec<u64>) {
        if self.dominates_spec(a, b) && self.dominates_spec(b, a) {
            let i = choose|i: int|
                0 <= i < a@.len() && strictly_better(self.directions@[i], a@[i], b@[i]);
            assert(!strictly_better(self.directions@[i], a@[i], b@[i]));
        }
    }

    /// Scans the objectives once, tracking whether `a` is strictly
    /// better somewhere; returns false as soon as `a` is strictly worse
    /// anywhere or the lengths do not match the configuration.
    fn dominates(&self, a: &Vec<u64>, b: &Vec<u64>) -> (r: bool) {
        if a.len() != self.directions.len() || b.len() != self.directions.len() {
            return false;
        }
        let mut any_better = false;
        let mut i: usize = 0;
        while i < a.len()
            invariant
                a@.len() == self.directions@.len(),
                b@.len() == self.directions@.len(),
                i <= a@.len(),
                forall|j: int| 0 <= j < i ==> !strictly_better(self.directions@[j], b@[j], a@[j]),
                any_better == exists|j: int|
                    0 <= j < i && strictly_better(self.directions@[j], a@[j], b@[j]),
            decreases a@.len() - i,
        {
            if is_strictly_better(self.directions[i], b[i], a[i]) {
                return false;
            }
            if is_strictly_better(self.directions[i], a[i], b[i]) {
                any_better = true;
            }
            i = i + 1;
        }
        any_better
    }
}

/// A dominance comparator for two-objective minimization solutions,
/// given as pairs of objective values with lower values better on both.
/// It computes the full three-valued relation in one pass and derives
/// `dominates` from it.
pub struct PairMinComparator;

impl DominanceOrd<(u64, u64)> for PairMinComparator {
    open spec fn dominates_spec(&self, a: &(u64, u64), b: &(u64, u64)) -> bool {
        a.0 <= b.0 && a.1 <= b.1 && (a.0 < b.0 || a.1 < b.1)
    }

    proof fn lemma_asymmetric(&self, a: &(u64, u64), b: &(u64, u64)) {
    }

    /// Compares both objectives once and reports the relation directly.
    fn dominance_ord(&self, a: &(u64, u64), b: &(u64, u64)) -> (r: Ordering) {
        if a.0 <= b.0 && a.1 <= b.1 && (a.0 < b.0 || a.1 < b.1) {
            Ordering::Less
        } else if b.0 <= a.0 && b.1 <= a.1 && (b.0 < a.0 || b.1 < a.1) {
            Ordering::Greater
        } else {
            Ordering::Equal
        }
    }

    fn dominates(&self, a: &(u64, u64), b: &(u64, u64)) -> (r: bool) {
        match self.dominance_ord(a, b) {
            Ordering::Less => true,
            _ => false,
        }
    }
}

} // verus!
