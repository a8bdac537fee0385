use vstd::prelude::*;

use std::collections::HashMap;

use crate::coord::Coord;
use crate::ids::{PointID, ShapeID};

verus! {

broadcast use vstd::std_specs::hash::group_hash_axioms;

/// Definition of a point.
#[derive(Clone, Copy, PartialEq, Eq, Debug, Hash, Structural)]
pub enum Point {
    /// The first intersection of two shapes.
    PrimIntersection(ShapeID, ShapeID),
    /// The second intersection of the same two shapes.
    SecIntersection(ShapeID, ShapeID),
    /// A free-standing position, the only kind of point that may be moved.
    Arbitrary(Coord),
}

/// Definition of a shape.
#[derive(Clone, Copy, PartialEq, Eq, Debug, Hash, Structural)]
pub enum Shape {
    /// (center, point on the circumference)
    Circle(PointID, PointID),
    /// Two points on the line
    Line(PointID, PointID),
}

/// What a [`Geometry`] holds: both definition maps, keyed by raw id, and the
/// last id issued of each kind.
pub struct GeometryView {
    pub points: Map<u64, Point>,
    pub shapes: Map<u64, Shape>,
    pub last_point: u64,
    pub last_shape: u64,
}

impl GeometryView {
    /// Ids are issued upward from 1 and never withdrawn, so the ids in use
    /// are exactly 1 to the last one issued.
    pub open spec fn wf(self) -> bool {
        &&& self.points.dom().finite()
        &&& self.shapes.dom().finite()
        &&& forall|k: u64| self.points.contains_key(k) <==> 1 <= k <= self.last_point
        &&& forall|k: u64| self.shapes.contains_key(k) <==> 1 <= k <= self.last_shape
    }
}

/// The store of all point and shape definitions.
pub struct Geometry {
    shapes: HashMap<u64, Shape>,
    points: HashMap<u64, Point>,
    last_shape: ShapeID,
    last_point: PointID,
}

impl View for Geometry {
    type V = GeometryView;

    closed spec fn view(&self) -> GeometryView {
        GeometryView {
            points: self.points@,
            shapes: self.shapes@,
            last_point: self.last_point.0,
            last_shape: self.last_shape.0,
        }
    }
}

impl Geometry {
    /// An empty store.
    pub fn new() -> (r: Geometry)
        ensures
            r@.wf(),
            r@.points == Map::<u64, Point>::empty(),
            r@.shapes == Map::<u64, Shape>::empty(),
            r@.last_point == 0,
            r@.last_shape == 0,
    {
        Geometry {
            shapes: HashMap::new(),
            points: HashMap::new(),
            last_shape: ShapeID(0),
            last_point: PointID(0),
        }
    }

    /// Stores `shape` under a fresh id and returns that id.
    pub fn add_shape(&mut self, shape: Shape) -> (id: ShapeID)
        requires
            old(self)@.wf(),
            old(self)@.last_shape < u64::MAX,
        ensures
            final(self)@.wf(),
            !old(self)@.shapes.contains_key(id.0),
            id.0 == old(self)@.last_shape + 1,
            final(self)@.shapes == old(self)@.shapes.insert(id.0, shape),
            final(self)@.last_shape == id.0,
            final(self)@.points == old(self)@.points,
            final(self)@.last_point == old(self)@.last_point,
    {
        let id = self.next_shape_id();
        self.shapes.insert(id.0, shape);
        id
    }

    /// Stores `point` under a fresh id and returns that id.
    pub fn add_point(&mut self, point: Point) -> (id: PointID)
        requires
            old(self)@.wf(),
            old(self)@.last_point < u64::MAX,
        ensures
            final(self)@.wf(),
            !old(self)@.points.contains_key(id.0),
            id.0 == old(self)@.last_point + 1,
            final(self)@.points == old(self)@.points.insert(id.0, point),
            final(self)@.last_point == id.0,
            final(self)@.shapes == old(self)@.shapes,
            final(self)@.last_shape == old(self)@.last_shape,
    {
        let id = self.next_point_id();
        self.points.insert(id.0, point);
        id
    }

    /// How many point ids have been issued; in a well-formed store, how many
    /// points it holds.
    pub fn point_count(&self) -> (r: u64)
        ensures
            r == self@.last_point,
    {
        self.last_point.0
    }

    /// How many shape ids have been issued; in a well-formed store, how many
    /// shapes it holds.
    pub fn shape_count(&self) -> (r: u64)
        ensures
            r == self@.last_shape,
    {
        self.last_shape.0
    }

    /// The definition stored under `id`, if any.
    pub fn get_point(&self, id: PointID) -> (r: Option<Point>)
        ensures
            r == (if self@.points.contains_key(id.0) {
                Option::Some(self@.points[id.0])
            } else {
                Option::None
            }),
    {
        match self.points.get(&id.0) {
            Option::Some(p) => Option::Some(*p),
            Option::None => Option::None,
        }
    }

    /// The definition stored under `id`, if any.
    pub fn get_shape(&self, id: ShapeID) -> (r: Option<Shape>)
        ensures
            r == (if self@.shapes.contains_key(id.0) {
                Option::Some(self@.shapes[id.0])
            } else {
                Option::None
            }),
    {
        match self.shapes.get(&id.0) {
            Option::Some(s) => Option::Some(*s),
            Option::None => Option::None,
        }
    }

    /// Every point id in use, in the order of issue.
    pub fn point_ids(&self) -> (r: Vec<PointID>)
        requires
            self@.wf(),
        ensures
            r@.len() == self@.last_point,
            forall|i: int| 0 <= i < r@.len() ==> #[trigger] r@[i].0 == i + 1,
            forall|k: u64| #[trigger] self@.points.contains_key(k) <==> exists|i: int|
                0 <= i < r@.len() && r@[i].0 == k,
    {
        let mut r: Vec<PointID> = Vec::new();
        let mut k: u64 = 0;
        while k < self.last_point.0
            invariant
                k <= self.last_point.0,
                r@.len() == k,
                forall|i: int| 0 <= i < r@.len() ==> #[trigger] r@[i].0 == i + 1,
            decreases self.last_point.0 - k,
        {
            k = k + 1;
            r.push(PointID(k));
        }
        proof {
            assert forall|k: u64| #[trigger] self@.points.contains_key(k) implies exists|i: int|
                0 <= i < r@.len() && r@[i].0 == k by {
                assert(r@[k - 1].0 == k);
            }
        }
        r
    }

    /// Every shape id in use, in the order of issue.
    pub fn shape_ids(&self) -> (r: Vec<ShapeID>)
        requires
            self@.wf(),
        ensures
            r@.len() == self@.last_shape,
            forall|i: int| 0 <= i < r@.len() ==> #[trigger] r@[i].0 == i + 1,
            forall|k: u64| #[trigger] self@.shapes.contains_key(k) <==> exists|i: int|
                0 <= i < r@.len() && r@[i].0 == k,
    {
        let mut r: Vec<ShapeID> = Vec::new();
        let mut k: u64 = 0;
        while k < self.last_shape.0
            invariant
                k <= self.last_shape.0,
                r@.len() == k,
                forall|i: int| 0 <= i < r@.len() ==> #[trigger] r@[i].0 == i + 1,
            decreases self.last_shape.0 - k,
        {
            k = k + 1;
            r.push(ShapeID(k));
        }
        proof {
            assert forall|k: u64| #[trigger] self@.shapes.contains_key(k) implies exists|i: int|
                0 <= i < r@.len() && r@[i].0 == k by {
                assert(r@[k - 1].0 == k);
            }
        }
        r
    }

    /// Moves the free-standing point `id` to `pos`. Returns whether it did:
    /// a point that is missing or defined as an intersection is left as it is.
    pub fn set_arbitrary(&mut self, id: PointID, pos: Coord) -> (moved: bool)
        requires
            old(self)@.wf(),
        ensures
            moved == (old(self)@.points.contains_key(id.0) && old(self)@.points[id.0] is Arbitrary),
            final(self)@.points == (if moved {
                old(self)@.points.insert(id.0, Point::Arbitrary(pos))
            } else {
                old(self)@.points
            }),
            final(self)@.shapes == old(self)@.shapes,
            final(self)@.last_point == old(self)@.last_point,
            final(self)@.last_shape == old(self)@.last_shape,
            final(self)@.wf(),
    {
        let free = match self.points.get(&id.0) {
            Option::Some(Point::Arbitrary(_)) => true,
            _ => false,
        };
        if free {
            self.points.insert(id.0, Point::Arbitrary(pos));
            proof {
                assert(self@.points.dom() =~= old(self)@.points.dom());
            }
        }
        free
    }

    /// Counts upward from the last shape id issued to the first one not in
    /// use, and records it as the last one issued.
    fn next_shape_id(&mut self) -> (id: ShapeID)
        requires
            old(self)@.wf(),
            old(self)@.last_shape < u64::MAX,
        ensures
            id.0 == old(self)@.last_shape + 1,
            !old(self)@.shapes.contains_key(id.0),
            final(self)@.last_shape == id.0,
            final(self)@.shapes == old(self)@.shapes,
            final(self)@.points == old(self)@.points,
            final(self)@.last_point == old(self)@.last_point,
    {
        let ghost start = self@.last_shape;
        loop
            invariant
                start == old(self)@.last_shape,
                start <= self.last_shape.0 < u64::MAX,
                self.last_shape.0 == start || self.shapes@.contains_key(self.last_shape.0),
                self.shapes@ == old(self)@.shapes,
                self.points@ == old(self)@.points,
                self.last_point == old(self).last_point,
                old(self)@.wf(),
            decreases u64::MAX - self.last_shape.0,
        {
            self.last_shape = ShapeID(self.last_shape.0 + 1);
            if !self.shapes.contains_key(&self.last_shape.0) {
                return self.last_shape;
            }
        }
    }

    /// Counts upward from the last point id issued to the first one not in
    /// use, and records it as the last one issued.
    fn next_point_id(&mut self) -> (id: PointID)
        requires
            old(self)@.wf(),
            old(self)@.last_point < u64::MAX,
        ensures
            id.0 == old(self)@.last_point + 1,
            !old(self)@.points.contains_key(id.0),
            final(self)@.last_point == id.0,
            final(self)@.points == old(self)@.points,
            final(self)@.shapes == old(self)@.shapes,
            final(self)@.last_shape == old(self)@.last_shape,
    {
        let ghost start = self@.last_point;
        loop
            invariant
                start == old(self)@.last_point,
                start <= self.last_point.0 < u64::MAX,
                self.last_point.0 == start || self.points@.contains_key(self.last_point.0),
                self.points@ == old(self)@.points,
                self.shapes@ == old(self)@.shapes,
                self.last_shape == old(self).last_shape,
                old(self)@.wf(),
            decreases u64::MAX - self.last_point.0,
        {
            self.last_point = PointID(self.last_point.0 + 1);
            if !self.points.contains_key(&self.last_point.0) {
                return self.last_point;
            }
        }
    }
}

} // verus!
