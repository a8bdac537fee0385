use vstd::prelude::*;

use crate::coord::Coord;
use crate::geometry::{Geometry, GeometryView, Point, Shape};
use crate::ids::{PointID, ShapeID};
use crate::intersection::Pick;

verus! {

broadcast use vstd::std_specs::hash::group_hash_axioms;

/// A point resolved down to given positions: either a position itself, or
/// one solution of an intersection whose operands are resolved in turn.
#[derive(Debug, PartialEq)]
pub enum Located {
    Given(Coord),
    Meet(Pick, Box<Crossing>),
}

/// An intersection query on resolved operands, one variant per pair of shape
/// kinds. A circle is given by its center and a point on its circumference, a
/// line by two of its points.
#[derive(Debug, PartialEq)]
pub enum Crossing {
    /// (center 1, point on circle 1, center 2, point on circle 2)
    Circles(Located, Located, Located, Located),
    /// (center, point on the circle, first and second point of the line)
    CircleLine(Located, Located, Located, Located),
    /// (two points of the first line, two points of the second line)
    Lines(Located, Located, Located, Located),
}

/// A shape whose defining points are resolved.
#[derive(Debug, PartialEq)]
pub enum Outline {
    /// (center, point on the circumference)
    Circle(Located, Located),
    /// Two points on the line
    Line(Located, Located),
}

/// The intersection query for two shapes: a circle and a line make the same
/// query in either order.
pub open spec fn crossing_of(a: Outline, b: Outline) -> Crossing {
    match (a, b) {
        (Outline::Circle(c1, p1), Outline::Circle(c2, p2)) => Crossing::Circles(c1, p1, c2, p2),
        (Outline::Circle(c, p), Outline::Line(l1, l2)) => Crossing::CircleLine(c, p, l1, l2),
        (Outline::Line(l1, l2), Outline::Circle(c, p)) => Crossing::CircleLine(c, p, l1, l2),
        (Outline::Line(a1, a2), Outline::Line(b1, b2)) => Crossing::Lines(a1, a2, b1, b2),
    }
}

/// Resolution of point `id`, where `fuel` bounds how many points deep the
/// walk may go; a walk that runs out fails.
pub open spec fn locate(g: GeometryView, id: u64, fuel: nat) -> Option<Located>
    decreases fuel, 0nat,
{
    if fuel == 0 || !g.points.contains_key(id) {
        Option::None
    } else {
        match g.points[id] {
            Point::Arbitrary(c) => Option::Some(Located::Given(c)),
            Point::PrimIntersection(a, b) => meet(g, Pick::Primary, a.0, b.0, (fuel - 1) as nat),
            Point::SecIntersection(a, b) => meet(g, Pick::Secondary, a.0, b.0, (fuel - 1) as nat),
        }
    }
}

/// Resolution of the `pick` solution of shapes `a` and `b`.
pub open spec fn meet(g: GeometryView, pick: Pick, a: u64, b: u64, fuel: nat) -> Option<Located>
    decreases fuel, 2nat,
{
    match (outline(g, a, fuel), outline(g, b, fuel)) {
        (Option::Some(oa), Option::Some(ob)) => Option::Some(
            Located::Meet(pick, Box::new(crossing_of(oa, ob))),
        ),
        _ => Option::None,
    }
}

/// Resolution of shape `id`.
pub open spec fn outline(g: GeometryView, id: u64, fuel: nat) -> Option<Outline>
    decreases fuel, 1nat,
{
    if !g.shapes.contains_key(id) {
        Option::None
    } else {
        match g.shapes[id] {
            Shape::Circle(c, p) => match (locate(g, c.0, fuel), locate(g, p.0, fuel)) {
                (Option::Some(lc), Option::Some(lp)) => Option::Some(Outline::Circle(lc, lp)),
                _ => Option::None,
            },
            Shape::Line(p, q) => match (locate(g, p.0, fuel), locate(g, q.0, fuel)) {
                (Option::Some(lp), Option::Some(lq)) => Option::Some(Outline::Line(lp, lq)),
                _ => Option::None,
            },
        }
    }
}

/// What resolving point `id` of `g` gives. No walk through a store without
/// cycles passes more points than the store holds, so that many steps are
/// allowed.
pub open spec fn point_resolution(g: GeometryView, id: PointID) -> Option<Located> {
    locate(g, id.0, g.last_point as nat)
}

/// What resolving shape `id` of `g` gives.
pub open spec fn shape_resolution(g: GeometryView, id: ShapeID) -> Option<Outline> {
    outline(g, id.0, g.last_point as nat)
}

/// The intersection query for two shapes: see [`crossing_of`].
pub fn crossing(a: Outline, b: Outline) -> (r: Crossing)
    ensures
        r == crossing_of(a, b),
{
    match (a, b) {
        (Outline::Circle(c1, p1), Outline::Circle(c2, p2)) => Crossing::Circles(c1, p1, c2, p2),
        (Outline::Circle(c, p), Outline::Line(l1, l2)) => Crossing::CircleLine(c, p, l1, l2),
        (Outline::Line(l1, l2), Outline::Circle(c, p)) => Crossing::CircleLine(c, p, l1, l2),
        (Outline::Line(a1, a2), Outline::Line(b1, b2)) => Crossing::Lines(a1, a2, b1, b2),
    }
}

impl Geometry {
    fn locate_within(&self, id: u64, fuel: u64) -> (r: Option<Located>)
        ensures
            r == locate(self@, id, fuel as nat),
        decreases fuel, 0nat,
    {
        if fuel == 0 {
            return Option::None;
        }
        match self.get_point(PointID(id)) {
            Option::None => Option::None,
            Option::Some(Point::Arbitrary(c)) => Option::Some(Located::Given(c)),
            Option::Some(Point::PrimIntersection(a, b)) => self.meet_within(
                Pick::Primary,
                a.0,
                b.0,
                fuel - 1,
            ),
            Option::Some(Point::SecIntersection(a, b)) => self.meet_within(
                Pick::Secondary,
                a.0,
                b.0,
                fuel - 1,
            ),
        }
    }

    fn meet_within(&self, pick: Pick, a: u64, b: u64, fuel: u64) -> (r: Option<Located>)
        ensures
            r == meet(self@, pick, a, b, fuel as nat),
        decreases fuel, 2nat,
    {
        let oa = self.outline_within(a, fuel);
        let ob = self.outline_within(b, fuel);
        match (oa, ob) {
            (Option::Some(oa), Option::Some(ob)) => Option::Some(
                Located::Meet(pick, Box::new(crossing(oa, ob))),
            ),
            _ => Option::None,
        }
    }

    fn outline_within(&self, id: u64, fuel: u64) -> (r: Option<Outline>)
        ensures
            r == outline(self@, id, fuel as nat),
        decreases fuel, 1nat,
    {
        match self.get_shape(ShapeID(id)) {
            Option::None => Option::None,
            Option::Some(Shape::Circle(c, p)) => {
                let lc = self.locate_within(c.0, fuel);
                let lp = self.locate_within(p.0, fuel);
                match (lc, lp) {
                    (Option::Some(lc), Option::Some(lp)) => Option::Some(Outline::Circle(lc, lp)),
                    _ => Option::None,
                }
            },
            Option::Some(Shape::Line(p, q)) => {
                let lp = self.locate_within(p.0, fuel);
                let lq = self.locate_within(q.0, fuel);
                match (lp, lq) {
                    (Option::Some(lp), Option::Some(lq)) => Option::Some(Outline::Line(lp, lq)),
                    _ => Option::None,
                }
            },
        }
    }

    /// Resolves point `id` down to given positions. Fails when a definition
    /// on the way is missing, or when the walk passes more points than the
    /// store holds, which only a cycle of definitions makes it do.
    pub fn resolve_point(&self, id: PointID) -> (r: Option<Located>)
        ensures
            r == point_resolution(self@, id),
    {
        self.locate_within(id.0, self.point_count())
    }

    /// Resolves shape `id`: both of its defining points, as
    /// [`Geometry::resolve_point`] does.
    pub fn resolve_shape(&self, id: ShapeID) -> (r: Option<Outline>)
        ensures
            r == shape_resolution(self@, id),
    {
        self.outline_within(id.0, self.point_count())
    }
}

/// Whether shape `s` is defined through point `p`.
pub open spec fn shape_uses(s: Shape, p: u64) -> bool {
    match s {
        Shape::Circle(c, q) => c.0 == p || q.0 == p,
        Shape::Line(q, r) => q.0 == p || r.0 == p,
    }
}

/// The two shapes that an intersection point is defined by.
pub open spec fn operands(p: Point) -> Option<(u64, u64)> {
    match p {
        Point::PrimIntersection(a, b) => Option::Some((a.0, b.0)),
        Point::SecIntersection(a, b) => Option::Some((a.0, b.0)),
        Point::Arbitrary(_) => Option::None,
    }
}

/// A point defined as an intersection with a shape that was never added
/// does not resolve.
pub proof fn lemma_missing_shape_unresolved(g: GeometryView, id: PointID)
    requires
        g.points.contains_key(id.0),
        operands(g.points[id.0]) matches Option::Some((a, b)) && (!g.shapes.contains_key(a)
            || !g.shapes.contains_key(b)),
    ensures
        point_resolution(g, id) is None,
{
    let fuel = g.last_point as nat;
    if fuel > 0 {
        let (a, b) = operands(g.points[id.0])->Some_0;
        assert(outline(g, a, (fuel - 1) as nat) is None || outline(g, b, (fuel - 1) as nat) is None);
    }
}

/// Resolving the same point, or the same shape, twice in a store that did
/// not change in between gives the same result both times.
pub proof fn lemma_resolution_repeatable(g: GeometryView, h: GeometryView, p: PointID, s: ShapeID)
    requires
        g == h,
    ensures
        point_resolution(g, p) == point_resolution(h, p),
        shape_resolution(g, s) == shape_resolution(h, s),
{
}

/// A point defined as an intersection with a shape that is itself defined
/// through that point does not resolve, however many steps are allowed.
pub proof fn lemma_self_reference_unresolved(g: GeometryView, id: u64, fuel: nat)
    requires
        g.points.contains_key(id),
        operands(g.points[id]) matches Option::Some((a, b)) && ((g.shapes.contains_key(a)
            && shape_uses(g.shapes[a], id)) || (g.shapes.contains_key(b) && shape_uses(
            g.shapes[b],
            id,
        ))),
    ensures
        locate(g, id, fuel) is None,
    decreases fuel,
{
    if fuel > 0 {
        lemma_self_reference_unresolved(g, id, (fuel - 1) as nat);
        let (a, b) = operands(g.points[id])->Some_0;
        let f = (fuel - 1) as nat;
        if g.shapes.contains_key(a) && shape_uses(g.shapes[a], id) {
            assert(outline(g, a, f) is None);
        } else {
            assert(outline(g, b, f) is None);
        }
    }
}

/// Every id that a definition refers to is defined: intersection points
/// name stored shapes, shapes name stored points.
pub open spec fn references_defined(g: GeometryView) -> bool {
    &&& forall|p: u64|
        #![trigger g.points.contains_key(p)]
        g.points.contains_key(p) ==> (operands(g.points[p]) matches Option::Some((a, b))
            ==> g.shapes.contains_key(a) && g.shapes.contains_key(b))
    &&& forall|s: u64, q: u64|
        #![trigger g.shapes.contains_key(s), shape_uses(g.shapes[s], q)]
        g.shapes.contains_key(s) && shape_uses(g.shapes[s], q) ==> g.points.contains_key(q)
}

/// `rank` orders the points so that every intersection point ranks above
/// each point its two shapes go through, with all ranks below the number of
/// points. Such an order exists exactly when the definitions have no cycle.
pub open spec fn ranked(g: GeometryView, rank: Map<u64, nat>) -> bool {
    forall|p: u64|
        #![trigger g.points.contains_key(p)]
        g.points.contains_key(p) ==> {
            &&& rank.contains_key(p)
            &&& rank[p] < g.last_point
            &&& operands(g.points[p]) matches Option::Some((a, b)) ==> forall|q: u64|
                #![trigger rank[q]]
                (shape_uses(g.shapes[a], q) || shape_uses(g.shapes[b], q)) ==> rank.contains_key(
                    q,
                ) && rank[q] < rank[p]
        }
}

proof fn lemma_ranked_point_located(g: GeometryView, rank: Map<u64, nat>, id: u64, fuel: nat)
    requires
        references_defined(g),
        ranked(g, rank),
        g.points.contains_key(id),
        rank[id] < fuel,
    ensures
        locate(g, id, fuel) is Some,
    decreases fuel, 0nat,
{
    if let Option::Some((a, b)) = operands(g.points[id]) {
        let f = (fuel - 1) as nat;
        assert(g.shapes.contains_key(a) && g.shapes.contains_key(b));
        lemma_ranked_shape_outlined(g, rank, id, a, f);
        lemma_ranked_shape_outlined(g, rank, id, b, f);
    }
}

proof fn lemma_ranked_shape_outlined(
    g: GeometryView,
    rank: Map<u64, nat>,
    above: u64,
    s: u64,
    fuel: nat,
)
    requires
        references_defined(g),
        ranked(g, rank),
        g.points.contains_key(above),
        operands(g.points[above]) matches Option::Some((a, b)) && (s == a || s == b),
        rank[above] <= fuel,
        g.shapes.contains_key(s),
    ensures
        outline(g, s, fuel) is Some,
    decreases fuel, 1nat,
{
    let (x, y) = match g.shapes[s] {
        Shape::Circle(c, p) => (c.0, p.0),
        Shape::Line(p, q) => (p.0, q.0),
    };
    assert(shape_uses(g.shapes[s], x) && shape_uses(g.shapes[s], y));
    assert(g.points.contains_key(x) && g.points.contains_key(y));
    assert(rank[x] < rank[above] && rank[y] < rank[above]);
    lemma_ranked_point_located(g, rank, x, fuel);
    lemma_ranked_point_located(g, rank, y, fuel);
}

/// In a store whose definitions refer only to defined ids and have no cycle,
/// every point and every shape resolves: the bound on the walk never cuts a
/// resolution short.
pub proof fn lemma_acyclic_resolves(g: GeometryView, rank: Map<u64, nat>, p: PointID, s: ShapeID)
    requires
        references_defined(g),
        ranked(g, rank),
    ensures
        g.points.contains_key(p.0) ==> point_resolution(g, p) is Some,
        g.shapes.contains_key(s.0) ==> shape_resolution(g, s) is Some,
{
    if g.points.contains_key(p.0) {
        lemma_ranked_point_located(g, rank, p.0, g.last_point as nat);
    }
    if g.shapes.contains_key(s.0) {
        let (x, y) = match g.shapes[s.0] {
            Shape::Circle(c, q) => (c.0, q.0),
            Shape::Line(q, r) => (q.0, r.0),
        };
        assert(shape_uses(g.shapes[s.0], x) && shape_uses(g.shapes[s.0], y));
        lemma_ranked_point_located(g, rank, x, g.last_point as nat);
        lemma_ranked_point_located(g, rank, y, g.last_point as nat);
    }
}

/// A circle and a line make the same intersection query in either order.
pub proof fn lemma_circle_line_symmetric(c: Located, p: Located, l1: Located, l2: Located)
    ensures
        crossing_of(Outline::Circle(c, p), Outline::Line(l1, l2)) == crossing_of(
            Outline::Line(l1, l2),
            Outline::Circle(c, p),
        ),
{
}

} // verus!
