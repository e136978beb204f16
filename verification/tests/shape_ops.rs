use overlay_core::shapes::{DrawingShape, Rgb};
use overlay_core::geom::ResizeHandle;
use overlay_core::{MAX_BRUSH_POINTS, BRUSH_TRIM_BLOCK};

fn red() -> Rgb {
    Rgb { r: 255, g: 0, b: 0 }
}

fn rect(a: (i64, i64), b: (i64, i64)) -> DrawingShape {
    DrawingShape::Rectangle { start: a, end: b, color: red(), stroke_width: 1 }
}

fn circle(c: (i64, i64), r: i64) -> DrawingShape {
    DrawingShape::Circle { center: c, radius: r, color: red(), stroke_width: 1 }
}

fn brush(points: Vec<(i64, i64)>) -> DrawingShape {
    DrawingShape::BrushStroke { points, color: red(), stroke_width: 1 }
}

#[test]
fn rectangle_bounds_normalize() {
    assert_eq!(rect((200, 180), (150, 150)).bounds(), (150, 150, 200, 180));
}

#[test]
fn circle_bounds_are_square() {
    let (l, t, r, b) = circle((200, 150), 50).bounds();
    assert_eq!((l, t, r, b), (150, 100, 250, 200));
    assert_eq!(r - l, b - t);
}

#[test]
fn brush_bounds_envelope_all_points() {
    let s = brush(vec![(10, 20), (5, 40), (30, 25)]);
    assert_eq!(s.bounds(), (5, 20, 30, 40));
}

#[test]
fn circle_containment_is_distance_based() {
    let s = circle((200, 150), 50);
    assert!(s.contains_point(200, 150));
    assert!(s.contains_point(230, 190));
    assert!(!s.contains_point(231, 190));
    // inside the bounding box but outside the circle
    assert!(!s.contains_point(245, 105));
}

#[test]
fn rectangle_containment_is_box_based() {
    let s = rect((150, 150), (200, 180));
    assert!(s.contains_point(150, 150));
    assert!(s.contains_point(200, 180));
    assert!(!s.contains_point(201, 180));
}

#[test]
fn translate_moves_every_point() {
    let mut s = brush(vec![(10, 20), (5, 40), (30, 25)]);
    s.translate(100, -10);
    assert_eq!(s.bounds(), (105, 10, 130, 30));
    let mut c = circle((200, 150), 50);
    c.translate(-20, 30);
    assert_eq!(c.bounds(), (130, 130, 230, 230));
}

#[test]
fn circle_resize_stays_square_and_inside_selection() {
    let selection = (100, 100, 400, 300);
    let mut s = circle((200, 150), 50);
    s.resize_constrained((120, 120, 260, 240), selection);
    let (l, t, r, b) = s.bounds();
    assert_eq!(r - l, b - t);
    assert_eq!((l, t, r, b), (130, 120, 250, 240));
    assert!(l >= 100 && r <= 400 && t >= 100 && b <= 300);
}

#[test]
fn circle_resize_below_minimum_is_ignored() {
    let mut s = circle((200, 150), 50);
    s.resize_constrained((200, 200, 205, 290), (100, 100, 400, 300));
    assert_eq!(s.bounds(), (150, 100, 250, 200));
}

#[test]
fn rectangle_resize_clamps_into_selection() {
    let mut s = rect((150, 150), (200, 180));
    s.resize_constrained((50, 90, 500, 320), (100, 100, 400, 300));
    assert_eq!(s.bounds(), (100, 100, 400, 300));
}

#[test]
fn brush_resize_is_a_no_op() {
    let mut s = brush(vec![(150, 150), (180, 170)]);
    s.resize_constrained((0, 0, 50, 50), (100, 100, 400, 300));
    assert_eq!(s.bounds(), (150, 150, 180, 170));
}

#[test]
fn translate_then_constrain_lands_inside_selection() {
    let selection = (100, 100, 400, 300);
    let mut s = rect((50, 50), (120, 90));
    s.translate(500, 300);
    s.constrain_to_selection(selection);
    let (l, t, r, b) = s.bounds();
    assert_eq!((l, t, r, b), (330, 260, 400, 300));
    assert!(l >= 100 && r <= 400 && t >= 100 && b <= 300);
    // size preserved
    assert_eq!((r - l, b - t), (70, 40));
}

#[test]
fn constrain_leaves_contained_shape_alone() {
    let mut s = circle((200, 150), 30);
    s.constrain_to_selection((100, 100, 400, 300));
    assert_eq!(s.bounds(), (170, 120, 230, 180));
}

#[test]
fn brush_point_cap_is_never_exceeded() {
    let mut points: Vec<(i64, i64)> = Vec::new();
    for i in 0..MAX_BRUSH_POINTS {
        points.push((2 * i as i64, 0));
    }
    let mut s = brush(points);
    s.add_brush_point(2 * MAX_BRUSH_POINTS as i64, 0);
    match &s {
        DrawingShape::BrushStroke { points, .. } => {
            assert_eq!(points.len(), MAX_BRUSH_POINTS - BRUSH_TRIM_BLOCK + 1);
            assert!(points.len() <= MAX_BRUSH_POINTS);
            // the oldest block was dropped, the fresh point appended
            assert_eq!(points[0], (2 * BRUSH_TRIM_BLOCK as i64, 0));
            assert_eq!(*points.last().unwrap(), (2 * MAX_BRUSH_POINTS as i64, 0));
        }
        _ => panic!("expected a brush stroke"),
    }
}

#[test]
fn brush_skips_points_closer_than_minimum() {
    let mut s = brush(vec![(100, 100)]);
    s.add_brush_point(101, 100);
    match &s {
        DrawingShape::BrushStroke { points, .. } => assert_eq!(points.len(), 1),
        _ => panic!("expected a brush stroke"),
    }
    s.add_brush_point(102, 100);
    match &s {
        DrawingShape::BrushStroke { points, .. } => {
            assert_eq!(points.as_slice(), &[(100, 100), (102, 100)]);
        }
        _ => panic!("expected a brush stroke"),
    }
}

#[test]
fn shape_handles_depend_on_kind() {
    let r = rect((100, 100), (300, 200));
    assert_eq!(r.get_resize_handle(200, 100), Some(ResizeHandle::Top));
    assert_eq!(r.get_resize_handle(300, 200), Some(ResizeHandle::BottomRight));
    let c = circle((200, 150), 50);
    // circles expose corner handles only
    assert_eq!(c.get_resize_handle(150, 100), Some(ResizeHandle::TopLeft));
    assert_eq!(c.get_resize_handle(200, 100), None);
    let b = brush(vec![(150, 150), (180, 170)]);
    assert_eq!(b.get_resize_handle(150, 150), None);
}

#[test]
fn shape_anchor_for_edges_uses_opposite_edge_corner() {
    let r = rect((100, 100), (300, 200));
    assert_eq!(r.get_resize_anchor(ResizeHandle::TopLeft), (300, 200));
    assert_eq!(r.get_resize_anchor(ResizeHandle::Top), (100, 200));
    assert_eq!(r.get_resize_anchor(ResizeHandle::Right), (100, 100));
}

#[test]
fn shape_handle_points_per_kind() {
    let r = rect((100, 100), (300, 200));
    assert_eq!(r.handle_points().len(), 8);
    let c = circle((200, 150), 50);
    assert_eq!(c.handle_points(), vec![(150, 100), (250, 100), (250, 200), (150, 200)]);
    let b = brush(vec![(150, 150)]);
    assert!(b.handle_points().is_empty());
}
