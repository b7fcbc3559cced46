//! The dominance-order comparator trait and the laws that every
//! implementation of it satisfies.

use vstd::prelude::*;
use core::cmp::Ordering;

verus! {

/// Trait for comparisons according to dominance order.
///
/// The dominance relation is a partial order. Given solutions `a` and
/// `b`, a dominance comparison has three possible outcomes:
///
/// - Either solution `a` dominates solution `b` ("a < b"),
///
/// - or solution `b` dominates solution `a` ("a > b"),
///
/// - or neither solution `a` nor `b` dominates the other ("a == b").
///
/// The dominance relation is for example used in non-dominated sort
/// algorithms to obtain the Pareto fronts.
///
/// An implementation supplies the relation once, as the spec function
/// [`DominanceOrd::dominates_spec`], together with a proof that the
/// relation is asymmetric ([`DominanceOrd::lemma_asymmetric`]); both
/// executable operations are specified against that one relation, so
/// they are consistent with each other by construction. A concrete
/// comparator implements `dominates` and keeps the default
/// `dominance_ord`, or — when it can compute the full three-valued
/// relation more cheaply in one pass — implements `dominance_ord` and
/// writes its `dominates` as the one-line match that is true exactly on
/// the `Less` outcome. Giving each operation a default body in terms of
/// the other would let a comparator override neither and recurse
/// without bound; the termination check rules that shape out, so
/// `dominates` carries no default body here.
pub trait DominanceOrd<T> {
    /// The dominance relation this comparator decides: true exactly when
    /// `a` dominates `b`.
    spec fn dominates_spec(&self, a: &T, b: &T) -> bool;

    /// Every implementation proves that its relation is asymmetric: `a`
    /// and `b` never dominate each other at once. Taking `b` equal to
    /// `a` this also makes the relation irreflexive.
    proof fn lemma_asymmetric(&self, a: &T, b: &T)
        ensures
            !(self.dominates_spec(a, b) && self.dominates_spec(b, a)),
    ;

    /// Returns the dominance order: `Less` exactly when `a` dominates
    /// `b`, `Greater` exactly when `b` dominates `a`, `Equal` exactly
    /// when neither dominates.
    fn dominance_ord(&self, a: &T, b: &T) -> (r: Ordering)
        ensures
            r == Ordering::Less <==> self.dominates_spec(a, b),
            r == Ordering::Greater <==> self.dominates_spec(b, a),
            r == Ordering::Equal <==> (!self.dominates_spec(a, b) && !self.dominates_spec(b, a)),
    {
        proof {
            self.lemma_asymmetric(a, b);
        }
        if self.dominates(a, b) {
            Ordering::Less
        } else if self.dominates(b, a) {
            Ordering::Greater
        } else {
            Ordering::Equal
        }
    }

    /// Returns true if `a` dominates `b` ("a < b").
    fn dominates(&self, a: &T, b: &T) -> (r: bool)
        ensures
            r == self.dominates_spec(a, b),
    ;
}

/// The three-valued outcome of comparing `a` and `b` under the
/// comparator `d`, derived from its relation: `Less` when `a` dominates
/// `b`, `Greater` when `b` dominates `a`, `Equal` when neither
/// dominates.
pub open spec fn dominance_ord_spec<T, D: DominanceOrd<T>>(d: &D, a: &T, b: &T) -> Ordering {
    if d.dominates_spec(a, b) {
        Ordering::Less
    } else if d.dominates_spec(b, a) {
        Ordering::Greater
    } else {
        Ordering::Equal
    }
}

/// Irreflexivity: no solution dominates itself.
pub proof fn lemma_irreflexive<T, D: DominanceOrd<T>>(d: &D, a: &T)
    ensures
        !d.dominates_spec(a, a),
{
    d.lemma_asymmetric(a, a);
}

/// Asymmetry: `dominates(a, b)` and `dominates(b, a)` are never both
/// true.
pub proof fn lemma_asymmetric<T, D: DominanceOrd<T>>(d: &D, a: &T, b: &T)
    ensures
        !(d.dominates_spec(a, b) && d.dominates_spec(b, a)),
{
    d.lemma_asymmetric(a, b);
}

/// Consistency between the two operations: the three-valued outcome is
/// `Less` iff `a` dominates `b`, `Greater` iff `b` dominates `a`, and
/// `Equal` iff neither dominates.
pub proof fn lemma_ord_consistent<T, D: DominanceOrd<T>>(d: &D, a: &T, b: &T)
    ensures
        dominance_ord_spec(d, a, b) == Ordering::Less <==> d.dominates_spec(a, b),
        dominance_ord_spec(d, a, b) == Ordering::Greater <==> d.dominates_spec(b, a),
        dominance_ord_spec(d, a, b) == Ordering::Equal <==> (!d.dominates_spec(a, b)
            && !d.dominates_spec(b, a)),
{
    d.lemma_asymmetric(a, b);
}

/// Symmetry of the ternary result: comparing in the opposite direction
/// swaps `Less` and `Greater` and keeps `Equal`.
pub proof fn lemma_ord_symmetric<T, D: DominanceOrd<T>>(d: &D, a: &T, b: &T)
    ensures
        dominance_ord_spec(d, a, b) == Ordering::Less <==> dominance_ord_spec(d, b, a)
            == Ordering::Greater,
        dominance_ord_spec(d, a, b) == Ordering::Greater <==> dominance_ord_spec(d, b, a)
            == Ordering::Less,
        dominance_ord_spec(d, a, b) == Ordering::Equal <==> dominance_ord_spec(d, b, a)
            == Ordering::Equal,
{
    d.lemma_asymmetric(a, b);
}

} // verus!
