use overlay_core::geom::{
    clip_box_to_canvas, constrain_to_screen, get_resize_anchor, get_resize_handle, isqrt,
    point_in_rect, selection_handle_points, ResizeHandle, Selection,
};

fn sel(a: (i64, i64), b: (i64, i64)) -> Selection {
    Selection { start: a, end: b }
}

#[test]
fn bounds_are_corner_order_independent() {
    let pairs = [
        ((100, 100), (300, 200)),
        ((300, 200), (100, 100)),
        ((300, 100), (100, 200)),
        ((-50, 80), (20, -10)),
        ((7, 7), (7, 7)),
    ];
    for (a, b) in pairs {
        assert_eq!(sel(a, b).bounds(), sel(b, a).bounds());
    }
}

#[test]
fn bounds_normalize_min_max() {
    assert_eq!(sel((300, 100), (100, 200)).bounds(), (100, 100, 300, 200));
    assert_eq!(sel((100, 100), (300, 200)).center(), (200, 150));
    assert_eq!(sel((100, 100), (300, 200)).size(), (200, 100));
}

#[test]
fn constrain_to_screen_clamps_left_and_top() {
    let r = constrain_to_screen(sel((-50, -20), (150, 80)), (1000, 800));
    assert_eq!(r.bounds(), (0, 0, 200, 100));
}

#[test]
fn constrain_to_screen_clamps_right_and_bottom() {
    let r = constrain_to_screen(sel((950, 750), (1050, 850)), (1000, 800));
    assert_eq!(r.bounds(), (900, 700, 1000, 800));
}

#[test]
fn constrain_to_screen_leaves_fitting_selection_alone() {
    let r = constrain_to_screen(sel((900, 700), (990, 760)), (1000, 800));
    assert_eq!(r.bounds(), (900, 700, 990, 760));
}

#[test]
fn constrain_to_screen_keeps_size() {
    let r = constrain_to_screen(sel((-300, 790), (-100, 900)), (1000, 800));
    let (l, t, rr, b) = r.bounds();
    assert_eq!((rr - l, b - t), (200, 110));
    assert!(l >= 0 && rr <= 1000 && t >= 0 && b <= 800);
}

#[test]
fn corner_points_resolve_to_corner_handles() {
    let s = sel((100, 100), (300, 200));
    assert_eq!(get_resize_handle(100, 100, &s), Some(ResizeHandle::TopLeft));
    assert_eq!(get_resize_handle(300, 100, &s), Some(ResizeHandle::TopRight));
    assert_eq!(get_resize_handle(300, 200, &s), Some(ResizeHandle::BottomRight));
    assert_eq!(get_resize_handle(100, 200, &s), Some(ResizeHandle::BottomLeft));
}

#[test]
fn corner_beats_edge_on_tiny_selection() {
    // The right corner of a 10-px-wide selection also lies in the top
    // edge's detection band; a corner must still win.
    let s = sel((100, 100), (110, 104));
    let h = get_resize_handle(110, 100, &s).unwrap();
    assert!(matches!(
        h,
        ResizeHandle::TopLeft
            | ResizeHandle::TopRight
            | ResizeHandle::BottomRight
            | ResizeHandle::BottomLeft
    ));
}

#[test]
fn edge_midpoints_resolve_to_edge_handles() {
    let s = sel((100, 100), (300, 200));
    assert_eq!(get_resize_handle(200, 100, &s), Some(ResizeHandle::Top));
    assert_eq!(get_resize_handle(300, 150, &s), Some(ResizeHandle::Right));
    assert_eq!(get_resize_handle(200, 200, &s), Some(ResizeHandle::Bottom));
    assert_eq!(get_resize_handle(100, 150, &s), Some(ResizeHandle::Left));
    assert_eq!(get_resize_handle(200, 150, &s), None);
}

#[test]
fn resize_anchor_is_opposite_point() {
    let s = sel((100, 100), (300, 200));
    assert_eq!(get_resize_anchor(ResizeHandle::TopLeft, &s), (300, 200));
    assert_eq!(get_resize_anchor(ResizeHandle::BottomRight, &s), (100, 100));
    assert_eq!(get_resize_anchor(ResizeHandle::Top, &s), (200, 200));
    assert_eq!(get_resize_anchor(ResizeHandle::Left, &s), (300, 150));
}

#[test]
fn point_in_rect_is_inclusive() {
    let s = sel((100, 100), (300, 200));
    assert!(point_in_rect(100, 100, &s));
    assert!(point_in_rect(300, 200, &s));
    assert!(point_in_rect(200, 150, &s));
    assert!(!point_in_rect(99, 150, &s));
    assert!(!point_in_rect(200, 201, &s));
}

#[test]
fn handle_points_ring_order() {
    let s = sel((100, 100), (300, 200));
    let pts = selection_handle_points(&s);
    assert_eq!(
        pts,
        vec![
            (100, 100),
            (200, 100),
            (300, 100),
            (300, 150),
            (300, 200),
            (200, 200),
            (100, 200),
            (100, 150),
        ]
    );
}

#[test]
fn isqrt_rounds_down() {
    assert_eq!(isqrt(0), 0);
    assert_eq!(isqrt(1), 1);
    assert_eq!(isqrt(15), 3);
    assert_eq!(isqrt(16), 4);
    assert_eq!(isqrt(2_500), 50);
    assert_eq!(isqrt(100_000_000_000_000), 10_000_000);
}

#[test]
fn clipping_trims_box_to_canvas() {
    assert_eq!(clip_box_to_canvas((-50, -20, 150, 80), (1000, 800)), Some((0, 0, 150, 80)));
    assert_eq!(clip_box_to_canvas((900, 700, 1100, 900), (1000, 800)), Some((900, 700, 1000, 800)));
    assert_eq!(clip_box_to_canvas((100, 100, 300, 200), (1000, 800)), Some((100, 100, 300, 200)));
    // fully off the canvas: nothing to draw
    assert_eq!(clip_box_to_canvas((-200, -100, -10, -5), (1000, 800)), None);
    assert_eq!(clip_box_to_canvas((1200, 100, 1300, 200), (1000, 800)), None);
}
