use drawmetry::{
    show_primary, CircleTool, Coord, GWrapper, Geometry, LineTool, MoverTool, Point, PointID,
    PointTool, SelectedStatus, Selector, Shape, ShapeID, ThingID, Tool, ToolKind, Visibility,
};

fn c(x: f64, y: f64) -> Coord {
    Coord::new(x.to_bits(), y.to_bits())
}

fn world_with_points() -> GWrapper {
    let mut w = GWrapper::new(Geometry::new());
    w.add_point(Point::Arbitrary(c(0., 0.)));
    w.add_point(Point::Arbitrary(c(1., 0.)));
    w.add_point(Point::PrimIntersection(ShapeID(1), ShapeID(2)));
    w
}

#[test]
fn visibility_is_unset_until_set() {
    let mut w = world_with_points();
    let p = ThingID::PointID(PointID(1));
    let s = ThingID::ShapeID(ShapeID(1));
    assert_eq!(w.visibility(p), None);
    w.set_visibility(p, Visibility::Hidden);
    assert_eq!(w.visibility(p), Some(Visibility::Hidden));
    assert_eq!(w.visibility(s), None);
    w.set_visibility(p, Visibility::Visible);
    assert_eq!(w.visibility(p), Some(Visibility::Visible));
}

#[test]
fn point_tool_adds_each_click() {
    let mut w = world_with_points();
    let mut t = PointTool {};
    let id = t.click(&mut w, Point::Arbitrary(c(5., 5.)));
    assert_eq!(id, PointID(4));
    assert_eq!(w.geometry().get_point(id), Some(Point::Arbitrary(c(5., 5.))));
    assert!(t.selected().is_empty());
    assert_eq!(t.kind(), ToolKind::Point);
}

#[test]
fn circle_tool_takes_center_then_rim() {
    let mut w = world_with_points();
    let mut t = CircleTool { center: None };
    assert_eq!(t.click(&mut w, None), None);
    assert_eq!(t.center, None);
    assert_eq!(t.click(&mut w, Some(PointID(1))), None);
    assert_eq!(t.center, Some(PointID(1)));
    assert_eq!(
        t.selected(),
        vec![(ThingID::PointID(PointID(1)), SelectedStatus::Primary)]
    );
    assert_eq!(t.click(&mut w, Some(PointID(2))), Some(ShapeID(1)));
    assert_eq!(t.center, None);
    assert!(t.selected().is_empty());
    assert_eq!(
        w.geometry().get_shape(ShapeID(1)),
        Some(Shape::Circle(PointID(1), PointID(2)))
    );
    assert_eq!(t.kind(), ToolKind::Circle);
}

#[test]
fn line_tool_takes_two_points() {
    let mut w = world_with_points();
    let mut t = LineTool { edge: None };
    assert_eq!(t.click(&mut w, Some(PointID(2))), None);
    assert_eq!(t.click(&mut w, None), None);
    assert_eq!(t.edge, Some(PointID(2)));
    assert_eq!(t.click(&mut w, Some(PointID(3))), Some(ShapeID(1)));
    assert_eq!(
        w.geometry().get_shape(ShapeID(1)),
        Some(Shape::Line(PointID(2), PointID(3)))
    );
    assert_eq!(t.edge, None);
    assert_eq!(t.kind(), ToolKind::Line);
}

#[test]
fn mover_marks_free_points_and_drags_its_pick() {
    let mut w = world_with_points();
    let mut t = MoverTool { moving: None };
    assert_eq!(
        t.selected(&w),
        vec![
            (ThingID::PointID(PointID(1)), SelectedStatus::Active),
            (ThingID::PointID(PointID(2)), SelectedStatus::Active),
        ]
    );
    assert!(!t.drag(&mut w, c(9., 9.)));
    t.click(Some(PointID(2)));
    t.click(None);
    assert_eq!(t.moving, Some(PointID(2)));
    let marks = t.selected(&w);
    assert_eq!(
        marks.last(),
        Some(&(ThingID::PointID(PointID(2)), SelectedStatus::Primary))
    );
    assert!(t.drag(&mut w, c(9., 9.)));
    assert_eq!(w.geometry().get_point(PointID(2)), Some(Point::Arbitrary(c(9., 9.))));
    assert_eq!(t.kind(), ToolKind::Mover);
}

#[test]
fn mover_leaves_constructed_points() {
    let mut w = world_with_points();
    let t = MoverTool { moving: Some(PointID(3)) };
    assert!(!t.drag(&mut w, c(9., 9.)));
    assert_eq!(
        w.geometry().get_point(PointID(3)),
        Some(Point::PrimIntersection(ShapeID(1), ShapeID(2)))
    );
}

#[test]
fn selector_collects_picks() {
    let mut t = Selector { selected: Vec::new() };
    t.click(Some(ThingID::ShapeID(ShapeID(1))));
    t.click(None);
    t.click(Some(ThingID::PointID(PointID(3))));
    assert_eq!(
        t.selected(),
        vec![
            (ThingID::ShapeID(ShapeID(1)), SelectedStatus::Active),
            (ThingID::PointID(PointID(3)), SelectedStatus::Active),
        ]
    );
    assert_eq!(t.kind(), ToolKind::Selector);
}

#[test]
fn fresh_tools_hold_nothing() {
    let w = world_with_points();
    for kind in [
        ToolKind::Point,
        ToolKind::Circle,
        ToolKind::Line,
        ToolKind::Mover,
        ToolKind::Selector,
    ] {
        let tool = kind.into_tool();
        assert_eq!(tool.kind(), kind);
        let marks = tool.selected(&w);
        match tool {
            Tool::Mover(_) => assert_eq!(marks.len(), 2),
            _ => assert!(marks.is_empty()),
        }
    }
}

#[test]
fn show_primary_touches_only_primary_marks() {
    let mut w = world_with_points();
    let marks = vec![
        (ThingID::PointID(PointID(1)), SelectedStatus::Active),
        (ThingID::PointID(PointID(2)), SelectedStatus::Primary),
    ];
    show_primary(&mut w, &marks, Visibility::Hidden);
    assert_eq!(w.visibility(ThingID::PointID(PointID(1))), None);
    assert_eq!(
        w.visibility(ThingID::PointID(PointID(2))),
        Some(Visibility::Hidden)
    );
}

#[test]
fn reset_keeps_kind_and_drops_held_point() {
    let mut tool = Tool::Circle(CircleTool {
        center: Some(PointID(1)),
    });
    tool.reset();
    assert_eq!(tool.kind(), ToolKind::Circle);
    match tool {
        Tool::Circle(t) => assert_eq!(t.center, None),
        _ => panic!("kind changed"),
    }
}
