use vstd::prelude::*;

use std::collections::HashMap;

use crate::coord::Coord;
use crate::geometry::{Geometry, GeometryView, Point, Shape};
use crate::ids::{PointID, ShapeID};

verus! {

broadcast use vstd::std_specs::hash::group_hash_axioms;

/// A point or a shape definition.
#[derive(Clone, Copy, PartialEq, Eq, Debug, Hash, Structural)]
pub enum Thing {
    Point(Point),
    Shape(Shape),
}

/// The id of a point or of a shape.
#[derive(Clone, Copy, PartialEq, Eq, Debug, Hash, Structural)]
pub enum ThingID {
    PointID(PointID),
    ShapeID(ShapeID),
}

/// A group that things may be gathered in.
#[derive(Clone, Copy, PartialEq, Eq, Debug, Hash, Structural)]
pub struct Group(pub u64);

/// Whether a thing is drawn normally or hidden.
#[derive(Clone, Copy, PartialEq, Eq, Debug, Hash, Structural)]
pub enum Visibility {
    Visible,
    Hidden,
}

/// The geometry store together with the visibility of each thing in it.
pub struct GWrapper {
    pub geometry: Geometry,
    point_visibility: HashMap<u64, Visibility>,
    shape_visibility: HashMap<u64, Visibility>,
}

/// What a [`GWrapper`] holds: the store's view, and the visibility set for
/// each thing; things without an entry are shown.
pub struct GWrapperView {
    pub geometry: GeometryView,
    pub visibility: Map<ThingID, Visibility>,
}

impl View for GWrapper {
    type V = GWrapperView;

    closed spec fn view(&self) -> GWrapperView {
        GWrapperView { geometry: self.geometry@, visibility: self.visibility_map() }
    }
}

impl GWrapper {
    spec fn visibility_map(&self) -> Map<ThingID, Visibility> {
        Map::new(
            |t: ThingID|
                match t {
                    ThingID::PointID(p) => self.point_visibility@.contains_key(p.0),
                    ThingID::ShapeID(s) => self.shape_visibility@.contains_key(s.0),
                },
            |t: ThingID|
                match t {
                    ThingID::PointID(p) => self.point_visibility@[p.0],
                    ThingID::ShapeID(s) => self.shape_visibility@[s.0],
                },
        )
    }

    /// Wraps `geometry`, with no visibility set for anything.
    pub fn new(geometry: Geometry) -> (r: GWrapper)
        ensures
            r@.geometry == geometry@,
            r@.visibility == Map::<ThingID, Visibility>::empty(),
    {
        let r = GWrapper {
            geometry,
            point_visibility: HashMap::new(),
            shape_visibility: HashMap::new(),
        };
        proof {
            assert(r.visibility_map() =~= Map::<ThingID, Visibility>::empty());
        }
        r
    }

    /// The wrapped geometry.
    pub fn geometry(&self) -> (r: &Geometry)
        ensures
            r@ == self@.geometry,
    {
        &self.geometry
    }

    /// Stores `point` in the geometry under a fresh id: see
    /// [`Geometry::add_point`].
    pub fn add_point(&mut self, point: Point) -> (id: PointID)
        requires
            old(self)@.geometry.wf(),
            old(self)@.geometry.last_point < u64::MAX,
        ensures
            final(self)@.geometry.wf(),
            !old(self)@.geometry.points.contains_key(id.0),
            id.0 == old(self)@.geometry.last_point + 1,
            final(self)@.geometry.points == old(self)@.geometry.points.insert(id.0, point),
            final(self)@.geometry.last_point == id.0,
            final(self)@.geometry.shapes == old(self)@.geometry.shapes,
            final(self)@.geometry.last_shape == old(self)@.geometry.last_shape,
            final(self)@.visibility == old(self)@.visibility,
    {
        self.geometry.add_point(point)
    }

    /// Stores `shape` in the geometry under a fresh id: see
    /// [`Geometry::add_shape`].
    pub fn add_shape(&mut self, shape: Shape) -> (id: ShapeID)
        requires
            old(self)@.geometry.wf(),
            old(self)@.geometry.last_shape < u64::MAX,
        ensures
            final(self)@.geometry.wf(),
            !old(self)@.geometry.shapes.contains_key(id.0),
            id.0 == old(self)@.geometry.last_shape + 1,
            final(self)@.geometry.shapes == old(self)@.geometry.shapes.insert(id.0, shape),
            final(self)@.geometry.last_shape == id.0,
            final(self)@.geometry.points == old(self)@.geometry.points,
            final(self)@.geometry.last_point == old(self)@.geometry.last_point,
            final(self)@.visibility == old(self)@.visibility,
    {
        self.geometry.add_shape(shape)
    }

    /// Moves a free-standing point: see [`Geometry::set_arbitrary`].
    pub fn set_arbitrary(&mut self, id: PointID, pos: Coord) -> (moved: bool)
        requires
            old(self)@.geometry.wf(),
        ensures
            moved == (old(self)@.geometry.points.contains_key(id.0)
                && old(self)@.geometry.points[id.0] is Arbitrary),
            final(self)@.geometry.points == (if moved {
                old(self)@.geometry.points.insert(id.0, Point::Arbitrary(pos))
            } else {
                old(self)@.geometry.points
            }),
            final(self)@.geometry.shapes == old(self)@.geometry.shapes,
            final(self)@.geometry.last_point == old(self)@.geometry.last_point,
            final(self)@.geometry.last_shape == old(self)@.geometry.last_shape,
            final(self)@.geometry.wf(),
            final(self)@.visibility == old(self)@.visibility,
    {
        self.geometry.set_arbitrary(id, pos)
    }

    /// The visibility set for `id`, if any.
    pub fn visibility(&self, id: ThingID) -> (r: Option<Visibility>)
        ensures
            r == (if self@.visibility.contains_key(id) {
                Option::Some(self@.visibility[id])
            } else {
                Option::None
            }),
    {
        let found = match id {
            ThingID::PointID(p) => self.point_visibility.get(&p.0),
            ThingID::ShapeID(s) => self.shape_visibility.get(&s.0),
        };
        match found {
            Option::Some(v) => Option::Some(*v),
            Option::None => Option::None,
        }
    }

    /// Sets the visibility of `id` to `v`.
    pub fn set_visibility(&mut self, id: ThingID, v: Visibility)
        ensures
            final(self)@.visibility == old(self)@.visibility.insert(id, v),
            final(self)@.geometry == old(self)@.geometry,
    {
        match id {
            ThingID::PointID(p) => {
                self.point_visibility.insert(p.0, v);
            },
            ThingID::ShapeID(s) => {
                self.shape_visibility.insert(s.0, v);
            },
        }
        proof {
            assert(self.visibility_map() =~= old(self).visibility_map().insert(id, v));
        }
    }
}

} // verus!
