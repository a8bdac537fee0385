use vstd::prelude::*;

use crate::coord::Coord;
use crate::geometry::{GeometryView, Point, Shape};
use crate::gwrapper::{GWrapper, ThingID, Visibility};
use crate::ids::{PointID, ShapeID};

verus! {

/// How a tool marks a thing it is working with.
#[derive(Clone, Copy, PartialEq, Eq, Debug, Hash, Structural)]
pub enum SelectedStatus {
    /// The thing the tool acts on next.
    Primary,
    /// A thing the tool may act on.
    Active,
}

/// The kinds of tool.
#[derive(Clone, Copy, PartialEq, Eq, Debug, Hash, Structural)]
pub enum ToolKind {
    Point,
    Circle,
    Line,
    Mover,
    Selector,
}

/// The markings that a list of (thing, status) pairs stands for: entered in
/// order, a later pair for the same thing replacing an earlier one.
pub open spec fn status_map(s: Seq<(ThingID, SelectedStatus)>) -> Map<ThingID, SelectedStatus>
    decreases s.len(),
{
    if s.len() == 0 {
        Map::empty()
    } else {
        status_map(s.drop_last()).insert(s.last().0, s.last().1)
    }
}

proof fn lemma_status_map_push(s: Seq<(ThingID, SelectedStatus)>, e: (ThingID, SelectedStatus))
    ensures
        status_map(s.push(e)) == status_map(s).insert(e.0, e.1),
{
    assert(s.push(e).drop_last() =~= s);
}

/// The markings of a tool that holds at most one point, as primary.
pub open spec fn single_mark(held: Option<PointID>) -> Map<ThingID, SelectedStatus> {
    match held {
        Option::Some(p) => map![ThingID::PointID(p) => SelectedStatus::Primary],
        Option::None => Map::empty(),
    }
}

fn mark_single(held: Option<PointID>) -> (r: Vec<(ThingID, SelectedStatus)>)
    ensures
        status_map(r@) == single_mark(held),
{
    let mut r: Vec<(ThingID, SelectedStatus)> = Vec::new();
    if let Option::Some(p) = held {
        r.push((ThingID::PointID(p), SelectedStatus::Primary));
        proof {
            lemma_status_map_push(seq![], (ThingID::PointID(p), SelectedStatus::Primary));
            assert(r@ =~= seq![].push((ThingID::PointID(p), SelectedStatus::Primary)));
            assert(status_map(r@) =~= single_mark(held));
        }
    }
    r
}

/// Places a point on each click.
pub struct PointTool {}

impl PointTool {
    /// Adds `point`: an existing construction near the click, or a free point
    /// where the click was.
    pub fn click(&mut self, ctx: &mut GWrapper, point: Point) -> (id: PointID)
        requires
            old(ctx)@.geometry.wf(),
            old(ctx)@.geometry.last_point < u64::MAX,
        ensures
            final(ctx)@.geometry.wf(),
            id.0 == old(ctx)@.geometry.last_point + 1,
            final(ctx)@.geometry.points == old(ctx)@.geometry.points.insert(id.0, point),
            final(ctx)@.geometry.last_point == id.0,
            final(ctx)@.geometry.shapes == old(ctx)@.geometry.shapes,
            final(ctx)@.geometry.last_shape == old(ctx)@.geometry.last_shape,
            final(ctx)@.visibility == old(ctx)@.visibility,
    {
        ctx.add_point(point)
    }

    /// This tool marks nothing.
    pub fn selected(&self) -> (r: Vec<(ThingID, SelectedStatus)>)
        ensures
            r@.len() == 0,
    {
        Vec::new()
    }

    pub fn kind(&self) -> (r: ToolKind)
        ensures
            r == ToolKind::Point,
    {
        ToolKind::Point
    }
}

/// Builds a circle from two clicks: first its center, then a point on it.
pub struct CircleTool {
    pub center: Option<PointID>,
}

impl CircleTool {
    /// Handles a click that `picked` the point nearest to it, if one was
    /// near enough: the first pick is held as the center, the second closes a
    /// circle through it. A click that picked nothing changes nothing.
    pub fn click(&mut self, ctx: &mut GWrapper, picked: Option<PointID>) -> (added: Option<
        ShapeID,
    >)
        requires
            old(ctx)@.geometry.wf(),
            old(ctx)@.geometry.last_shape < u64::MAX,
        ensures
            final(ctx)@.geometry.wf(),
            final(ctx)@.visibility == old(ctx)@.visibility,
            final(ctx)@.geometry.points == old(ctx)@.geometry.points,
            final(ctx)@.geometry.last_point == old(ctx)@.geometry.last_point,
            match (old(self).center, picked) {
                (Option::Some(c), Option::Some(p)) => {
                    &&& added == Option::Some(ShapeID((old(ctx)@.geometry.last_shape + 1) as u64))
                    &&& final(ctx)@.geometry.shapes == old(ctx)@.geometry.shapes.insert(
                        added->Some_0.0,
                        Shape::Circle(c, p),
                    )
                    &&& final(ctx)@.geometry.last_shape == added->Some_0.0
                    &&& final(self).center is None
                },
                _ => {
                    &&& added is None
                    &&& final(ctx)@.geometry == old(ctx)@.geometry
                    &&& final(self).center == (if picked is Some {
                        picked
                    } else {
                        old(self).center
                    })
                },
            },
    {
        match (self.center, picked) {
            (Option::Some(c), Option::Some(p)) => {
                let id = ctx.add_shape(Shape::Circle(c, p));
                self.center = Option::None;
                Option::Some(id)
            },
            (Option::None, Option::Some(p)) => {
                self.center = Option::Some(p);
                Option::None
            },
            _ => Option::None,
        }
    }

    /// The held center, as primary.
    pub fn selected(&self) -> (r: Vec<(ThingID, SelectedStatus)>)
        ensures
            status_map(r@) == single_mark(self.center),
    {
        mark_single(self.center)
    }

    pub fn kind(&self) -> (r: ToolKind)
        ensures
            r == ToolKind::Circle,
    {
        ToolKind::Circle
    }
}

/// Builds a line from two clicks, one on each of two points.
pub struct LineTool {
    pub edge: Option<PointID>,
}

impl LineTool {
    /// Handles a click that `picked` the point nearest to it, if one was
    /// near enough: the first pick is held, the second closes a line through
    /// both. A click that picked nothing changes nothing.
    pub fn click(&mut self, ctx: &mut GWrapper, picked: Option<PointID>) -> (added: Option<
        ShapeID,
    >)
        requires
            old(ctx)@.geometry.wf(),
            old(ctx)@.geometry.last_shape < u64::MAX,
        ensures
            final(ctx)@.geometry.wf(),
            final(ctx)@.visibility == old(ctx)@.visibility,
            final(ctx)@.geometry.points == old(ctx)@.geometry.points,
            final(ctx)@.geometry.last_point == old(ctx)@.geometry.last_point,
            match (old(self).edge, picked) {
                (Option::Some(e), Option::Some(p)) => {
                    &&& added == Option::Some(ShapeID((old(ctx)@.geometry.last_shape + 1) as u64))
                    &&& final(ctx)@.geometry.shapes == old(ctx)@.geometry.shapes.insert(
                        added->Some_0.0,
                        Shape::Line(e, p),
                    )
                    &&& final(ctx)@.geometry.last_shape == added->Some_0.0
                    &&& final(self).edge is None
                },
                _ => {
                    &&& added is None
                    &&& final(ctx)@.geometry == old(ctx)@.geometry
                    &&& final(self).edge == (if picked is Some {
                        picked
                    } else {
                        old(self).edge
                    })
                },
            },
    {
        match (self.edge, picked) {
            (Option::Some(e), Option::Some(p)) => {
                let id = ctx.add_shape(Shape::Line(e, p));
                self.edge = Option::None;
                Option::Some(id)
            },
            (Option::None, Option::Some(p)) => {
                self.edge = Option::Some(p);
                Option::None
            },
            _ => Option::None,
        }
    }

    /// The held point, as primary.
    pub fn selected(&self) -> (r: Vec<(ThingID, SelectedStatus)>)
        ensures
            status_map(r@) == single_mark(self.edge),
    {
        mark_single(self.edge)
    }

    pub fn kind(&self) -> (r: ToolKind)
        ensures
            r == ToolKind::Line,
    {
        ToolKind::Line
    }
}

/// The markings of the mover: every free-standing point among the first
/// `n` point ids as active, and the point being moved, if any, as primary.
pub open spec fn mover_marks(g: GeometryView, n: nat, moving: Option<PointID>) -> Map<
    ThingID,
    SelectedStatus,
> {
    let free = Map::new(
        |t: ThingID|
            t matches ThingID::PointID(p) && 1 <= p.0 <= n && g.points.contains_key(p.0)
                && g.points[p.0] is Arbitrary,
        |t: ThingID| SelectedStatus::Active,
    );
    match moving {
        Option::Some(p) => free.insert(ThingID::PointID(p), SelectedStatus::Primary),
        Option::None => free,
    }
}

/// Drags free-standing points.
pub struct MoverTool {
    pub moving: Option<PointID>,
}

impl MoverTool {
    /// Handles a click that `picked` the free-standing point nearest to it,
    /// if there is one: that point is the one to move.
    pub fn click(&mut self, picked: Option<PointID>)
        ensures
            final(self).moving == (if picked is Some {
                picked
            } else {
                old(self).moving
            }),
    {
        if picked.is_some() {
            self.moving = picked;
        }
    }

    /// Moves the point being moved to `pos`. Returns whether a point moved.
    pub fn drag(&self, ctx: &mut GWrapper, pos: Coord) -> (moved: bool)
        requires
            old(ctx)@.geometry.wf(),
        ensures
            final(ctx)@.geometry.wf(),
            final(ctx)@.visibility == old(ctx)@.visibility,
            final(ctx)@.geometry.shapes == old(ctx)@.geometry.shapes,
            final(ctx)@.geometry.last_point == old(ctx)@.geometry.last_point,
            final(ctx)@.geometry.last_shape == old(ctx)@.geometry.last_shape,
            match self.moving {
                Option::Some(p) => {
                    &&& moved == (old(ctx)@.geometry.points.contains_key(p.0)
                        && old(ctx)@.geometry.points[p.0] is Arbitrary)
                    &&& final(ctx)@.geometry.points == (if moved {
                        old(ctx)@.geometry.points.insert(p.0, Point::Arbitrary(pos))
                    } else {
                        old(ctx)@.geometry.points
                    })
                },
                Option::None => !moved && final(ctx)@.geometry.points
                    == old(ctx)@.geometry.points,
            },
    {
        match self.moving {
            Option::Some(p) => ctx.set_arbitrary(p, pos),
            Option::None => false,
        }
    }

    /// Every free-standing point as active, and the point being moved as
    /// primary.
    pub fn selected(&self, ctx: &GWrapper) -> (r: Vec<(ThingID, SelectedStatus)>)
        requires
            ctx@.geometry.wf(),
        ensures
            status_map(r@) == mover_marks(ctx@.geometry, ctx@.geometry.last_point as nat, self.moving),
    {
        let ghost g = ctx@.geometry;
        let n = ctx.geometry().point_count();
        let mut r: Vec<(ThingID, SelectedStatus)> = Vec::new();
        let mut k: u64 = 0;
        proof {
            assert(status_map(r@) =~= mover_marks(g, 0, Option::None));
        }
        while k < n
            invariant
                g == ctx@.geometry,
                n == g.last_point,
                k <= n,
                status_map(r@) == mover_marks(g, k as nat, Option::None),
            decreases n - k,
        {
            k = k + 1;
            let free = match ctx.geometry().get_point(PointID(k)) {
                Option::Some(Point::Arbitrary(_)) => true,
                _ => false,
            };
            if free {
                proof {
                    lemma_status_map_push(r@, (ThingID::PointID(PointID(k)), SelectedStatus::Active));
                }
                r.push((ThingID::PointID(PointID(k)), SelectedStatus::Active));
            }
            proof {
                assert(status_map(r@) =~= mover_marks(g, k as nat, Option::None));
            }
        }
        if let Option::Some(p) = self.moving {
            proof {
                lemma_status_map_push(r@, (ThingID::PointID(p), SelectedStatus::Primary));
            }
            r.push((ThingID::PointID(p), SelectedStatus::Primary));
        }
        proof {
            assert(status_map(r@) =~= mover_marks(g, n as nat, self.moving));
        }
        r
    }

    pub fn kind(&self) -> (r: ToolKind)
        ensures
            r == ToolKind::Mover,
    {
        ToolKind::Mover
    }
}

/// Picks things one click at a time.
pub struct Selector {
    pub selected: Vec<ThingID>,
}

impl Selector {
    /// Handles a click that `picked` the thing nearest to it, if any: that
    /// thing joins the selection.
    pub fn click(&mut self, picked: Option<ThingID>)
        ensures
            final(self).selected@ == (match picked {
                Option::Some(t) => old(self).selected@.push(t),
                Option::None => old(self).selected@,
            }),
    {
        if let Option::Some(t) = picked {
            self.selected.push(t);
        }
    }

    /// Every selected thing, as active.
    pub fn selected(&self) -> (r: Vec<(ThingID, SelectedStatus)>)
        ensures
            r@ == self.selected@.map_values(|t: ThingID| (t, SelectedStatus::Active)),
    {
        let mut r: Vec<(ThingID, SelectedStatus)> = Vec::new();
        let mut i: usize = 0;
        while i < self.selected.len()
            invariant
                i <= self.selected@.len(),
                r@ == self.selected@.take(i as int).map_values(
                    |t: ThingID| (t, SelectedStatus::Active),
                ),
            decreases self.selected@.len() - i,
        {
            r.push((self.selected[i], SelectedStatus::Active));
            i = i + 1;
            proof {
                assert(self.selected@.take(i as int).drop_last() =~= self.selected@.take(
                    (i - 1) as int,
                ));
                assert(r@ =~= self.selected@.take(i as int).map_values(
                    |t: ThingID| (t, SelectedStatus::Active),
                ));
            }
        }
        proof {
            assert(self.selected@.take(i as int) =~= self.selected@);
        }
        r
    }

    pub fn kind(&self) -> (r: ToolKind)
        ensures
            r == ToolKind::Selector,
    {
        ToolKind::Selector
    }
}

/// The tool in use, with what it holds between clicks.
pub enum Tool {
    Point(PointTool),
    Circle(CircleTool),
    Line(LineTool),
    Mover(MoverTool),
    Selector(Selector),
}

impl ToolKind {
    /// A fresh tool of this kind, holding nothing.
    pub fn into_tool(self) -> (r: Tool)
        ensures
            r.kind_of() == self,
            r.is_fresh(),
    {
        match self {
            ToolKind::Point => Tool::Point(PointTool {  }),
            ToolKind::Circle => Tool::Circle(CircleTool { center: Option::None }),
            ToolKind::Line => Tool::Line(LineTool { edge: Option::None }),
            ToolKind::Mover => Tool::Mover(MoverTool { moving: Option::None }),
            ToolKind::Selector => Tool::Selector(Selector { selected: Vec::new() }),
        }
    }
}

impl Tool {
    /// The kind of this tool.
    pub open spec fn kind_of(&self) -> ToolKind {
        match self {
            Tool::Point(_) => ToolKind::Point,
            Tool::Circle(_) => ToolKind::Circle,
            Tool::Line(_) => ToolKind::Line,
            Tool::Mover(_) => ToolKind::Mover,
            Tool::Selector(_) => ToolKind::Selector,
        }
    }

    /// Whether the tool holds nothing from earlier clicks.
    pub open spec fn is_fresh(&self) -> bool {
        match self {
            Tool::Point(_) => true,
            Tool::Circle(t) => t.center is None,
            Tool::Line(t) => t.edge is None,
            Tool::Mover(t) => t.moving is None,
            Tool::Selector(t) => t.selected@.len() == 0,
        }
    }

    pub fn kind(&self) -> (r: ToolKind)
        ensures
            r == self.kind_of(),
    {
        match self {
            Tool::Point(t) => t.kind(),
            Tool::Circle(t) => t.kind(),
            Tool::Line(t) => t.kind(),
            Tool::Mover(t) => t.kind(),
            Tool::Selector(t) => t.kind(),
        }
    }

    /// Drops whatever the tool holds from earlier clicks, keeping its kind.
    pub fn reset(&mut self)
        ensures
            final(self).kind_of() == old(self).kind_of(),
            final(self).is_fresh(),
    {
        *self = self.kind().into_tool();
    }

    /// What the tool marks, as (thing, status) pairs: see [`status_map`].
    pub fn selected(&self, ctx: &GWrapper) -> (r: Vec<(ThingID, SelectedStatus)>)
        requires
            ctx@.geometry.wf(),
        ensures
            match self {
                Tool::Point(_) => r@.len() == 0,
                Tool::Circle(t) => status_map(r@) == single_mark(t.center),
                Tool::Line(t) => status_map(r@) == single_mark(t.edge),
                Tool::Mover(t) => status_map(r@) == mover_marks(
                    ctx@.geometry,
                    ctx@.geometry.last_point as nat,
                    t.moving,
                ),
                Tool::Selector(t) => r@ == t.selected@.map_values(
                    |x: ThingID| (x, SelectedStatus::Active),
                ),
            },
    {
        match self {
            Tool::Point(t) => t.selected(),
            Tool::Circle(t) => t.selected(),
            Tool::Line(t) => t.selected(),
            Tool::Mover(t) => t.selected(ctx),
            Tool::Selector(t) => t.selected(),
        }
    }
}

/// Whether `marks` lists `t` as primary.
pub open spec fn listed_primary(marks: Seq<(ThingID, SelectedStatus)>, t: ThingID) -> bool {
    exists|i: int| 0 <= i < marks.len() && marks[i] == (t, SelectedStatus::Primary)
}

/// `vis` with every thing that `marks` lists as primary set to `v`.
pub open spec fn with_primary_set(
    vis: Map<ThingID, Visibility>,
    marks: Seq<(ThingID, SelectedStatus)>,
    v: Visibility,
) -> Map<ThingID, Visibility> {
    vis.union_prefer_right(Map::new(|t: ThingID| listed_primary(marks, t), |t: ThingID| v))
}

/// Sets the visibility of every thing that `marks` lists as primary to `v`.
pub fn show_primary(ctx: &mut GWrapper, marks: &Vec<(ThingID, SelectedStatus)>, v: Visibility)
    ensures
        final(ctx)@.geometry == old(ctx)@.geometry,
        final(ctx)@.visibility == with_primary_set(old(ctx)@.visibility, marks@, v),
{
    let mut i: usize = 0;
    proof {
        assert(ctx@.visibility =~= with_primary_set(old(ctx)@.visibility, marks@.take(0), v));
    }
    while i < marks.len()
        invariant
            i <= marks@.len(),
            ctx@.geometry == old(ctx)@.geometry,
            ctx@.visibility == with_primary_set(old(ctx)@.visibility, marks@.take(i as int), v),
        decreases marks@.len() - i,
    {
        let (t, st) = marks[i];
        if st == SelectedStatus::Primary {
            ctx.set_visibility(t, v);
        }
        proof {
            let prev = marks@.take(i as int);
            let next = marks@.take(i + 1);
            assert forall|u: ThingID| listed_primary(next, u) <==> (listed_primary(prev, u) || (
            u == t && st == SelectedStatus::Primary)) by {
                if listed_primary(next, u) {
                    let j = choose|j: int| 0 <= j < next.len() && next[j] == (u, SelectedStatus::Primary);
                    if j < i {
                        assert(prev[j] == next[j]);
                    }
                }
                if listed_primary(prev, u) {
                    let j = choose|j: int| 0 <= j < prev.len() && prev[j] == (u, SelectedStatus::Primary);
                    assert(next[j] == prev[j]);
                }
                if u == t && st == SelectedStatus::Primary {
                    assert(next[i as int] == (u, SelectedStatus::Primary));
                }
            }
            assert(ctx@.visibility =~= with_primary_set(old(ctx)@.visibility, next, v));
        }
        i = i + 1;
    }
    proof {
        assert(marks@.take(i as int) =~= marks@);
    }
}

} // verus!
