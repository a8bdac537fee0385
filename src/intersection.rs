use vstd::prelude::*;

use crate::coord::{is_ordinary, same_position, Coord};

verus! {

/// Which of the two solutions of an intersection a point stands for.
#[derive(Clone, Copy, PartialEq, Eq, Debug, Hash, Structural)]
pub enum Pick {
    Primary,
    Secondary,
}

/// The solutions of an intersection query, in the order the formula produced
/// them.
#[derive(Clone, Copy, Debug)]
pub enum IntersectionResult {
    Empty,
    One(Coord),
    Two(Coord, Coord),
}

/// Equality of two results, where a pair of solutions is compared as an
/// unordered pair and positions are compared numerically.
pub open spec fn same_result(r: IntersectionResult, s: IntersectionResult) -> bool {
    match (r, s) {
        (IntersectionResult::Empty, IntersectionResult::Empty) => true,
        (IntersectionResult::One(p), IntersectionResult::One(q)) => same_position(p, q),
        (IntersectionResult::Two(a1, b1), IntersectionResult::Two(a2, b2)) => (same_position(
            a1,
            a2,
        ) && same_position(b1, b2)) || (same_position(a1, b2) && same_position(b1, a2)),
        _ => false,
    }
}

/// The solution that a request for `pick` resolves to: the single solution
/// whatever is asked, the first of two for `Primary`, the second of two for
/// `Secondary`, and nothing when there is no solution.
pub open spec fn chosen(r: IntersectionResult, pick: Pick) -> Option<Coord> {
    match r {
        IntersectionResult::Empty => Option::None,
        IntersectionResult::One(p) => Option::Some(p),
        IntersectionResult::Two(a, b) => match pick {
            Pick::Primary => Option::Some(a),
            Pick::Secondary => Option::Some(b),
        },
    }
}

/// The solutions of `r`, in order.
pub open spec fn solutions(r: IntersectionResult) -> Seq<Coord> {
    match r {
        IntersectionResult::Empty => seq![],
        IntersectionResult::One(p) => seq![p],
        IntersectionResult::Two(a, b) => seq![a, b],
    }
}

impl IntersectionResult {
    /// Applies the tie-break rule: see [`chosen`].
    pub fn pick(&self, pick: Pick) -> (r: Option<Coord>)
        ensures
            r == chosen(*self, pick),
    {
        match self {
            IntersectionResult::Empty => Option::None,
            IntersectionResult::One(p) => Option::Some(*p),
            IntersectionResult::Two(a, b) => match pick {
                Pick::Primary => Option::Some(*a),
                Pick::Secondary => Option::Some(*b),
            },
        }
    }

    /// The solutions, in the order the formula produced them.
    pub fn points(&self) -> (r: Vec<Coord>)
        ensures
            r@ == solutions(*self),
    {
        let mut v: Vec<Coord> = Vec::new();
        match self {
            IntersectionResult::Empty => {},
            IntersectionResult::One(p) => {
                v.push(*p);
            },
            IntersectionResult::Two(a, b) => {
                v.push(*a);
                v.push(*b);
            },
        }
        proof {
            assert(v@ =~= solutions(*self));
        }
        v
    }
}

impl PartialEq for IntersectionResult {
    fn eq(&self, other: &IntersectionResult) -> (r: bool) {
        match (self, other) {
            (IntersectionResult::Empty, IntersectionResult::Empty) => true,
            (IntersectionResult::One(p), IntersectionResult::One(q)) => p.same_as(q),
            (IntersectionResult::Two(a1, b1), IntersectionResult::Two(a2, b2)) => (a1.same_as(a2)
                && b1.same_as(b2)) || (a1.same_as(b2) && b1.same_as(a2)),
            _ => false,
        }
    }
}

impl vstd::std_specs::cmp::PartialEqSpecImpl for IntersectionResult {
    open spec fn obeys_eq_spec() -> bool {
        true
    }

    open spec fn eq_spec(&self, other: &IntersectionResult) -> bool {
        same_result(*self, *other)
    }
}

/// A pair of solutions equals the same pair listed the other way round,
/// wherever no axis of either solution is a NaN.
pub proof fn lemma_pair_order_irrelevant(a: Coord, b: Coord)
    requires
        is_ordinary(a),
        is_ordinary(b),
    ensures
        same_result(IntersectionResult::Two(a, b), IntersectionResult::Two(b, a)),
{
}

} // verus!
