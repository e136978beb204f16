use overlay_core::cursor::{resize_handle_to_cursor, CursorKind, CursorManager};
use overlay_core::editor::AppState;
use overlay_core::geom::{ResizeHandle, Selection};
use overlay_core::shapes::{DrawingShape, DrawingTool, Rgb};

fn sel_box(a: (i64, i64), b: (i64, i64)) -> Selection {
    Selection { start: a, end: b }
}

fn rect_shape(a: (i64, i64), b: (i64, i64)) -> DrawingShape {
    DrawingShape::Rectangle { start: a, end: b, color: Rgb { r: 255, g: 0, b: 0 }, stroke_width: 1 }
}

fn idle_cursor(
    pos: (i64, i64), selection: Option<Selection>, tool: DrawingTool,
    shapes: &Vec<DrawingShape>, selected: Option<usize>,
) -> CursorKind {
    CursorManager::get_cursor_icon(
        pos, &AppState::Idle, selection, tool, shapes, selected, (1920, 1080))
}

#[test]
fn handles_map_to_directional_cursors() {
    assert_eq!(resize_handle_to_cursor(ResizeHandle::TopLeft), CursorKind::NwResize);
    assert_eq!(resize_handle_to_cursor(ResizeHandle::BottomRight), CursorKind::NwResize);
    assert_eq!(resize_handle_to_cursor(ResizeHandle::TopRight), CursorKind::NeResize);
    assert_eq!(resize_handle_to_cursor(ResizeHandle::BottomLeft), CursorKind::NeResize);
    assert_eq!(resize_handle_to_cursor(ResizeHandle::Top), CursorKind::NsResize);
    assert_eq!(resize_handle_to_cursor(ResizeHandle::Bottom), CursorKind::NsResize);
    assert_eq!(resize_handle_to_cursor(ResizeHandle::Left), CursorKind::EwResize);
    assert_eq!(resize_handle_to_cursor(ResizeHandle::Right), CursorKind::EwResize);
}

#[test]
fn no_selection_shows_default() {
    let shapes = Vec::new();
    assert_eq!(
        idle_cursor((200, 150), None, DrawingTool::NoTool, &shapes, None),
        CursorKind::Default
    );
}

#[test]
fn idle_priority_toolbar_then_handle_then_body() {
    let s = sel_box((100, 100), (300, 200));
    let shapes = Vec::new();
    // toolbar for this selection is [90, 310] x [215, 245]
    assert_eq!(
        idle_cursor((200, 230), Some(s), DrawingTool::NoTool, &shapes, None),
        CursorKind::Pointer
    );
    assert_eq!(
        idle_cursor((100, 100), Some(s), DrawingTool::NoTool, &shapes, None),
        CursorKind::NwResize
    );
    assert_eq!(
        idle_cursor((200, 100), Some(s), DrawingTool::NoTool, &shapes, None),
        CursorKind::NsResize
    );
    assert_eq!(
        idle_cursor((200, 150), Some(s), DrawingTool::NoTool, &shapes, None),
        CursorKind::Move
    );
    assert_eq!(
        idle_cursor((200, 150), Some(s), DrawingTool::Brush, &shapes, None),
        CursorKind::Crosshair
    );
    assert_eq!(
        idle_cursor((700, 600), Some(s), DrawingTool::NoTool, &shapes, None),
        CursorKind::NotAllowed
    );
}

#[test]
fn shape_handles_and_bodies_show_through_the_cursor() {
    let s = sel_box((100, 100), (400, 300));
    let shapes = vec![rect_shape((150, 150), (250, 220))];
    // a corner of the shape, with the shape selected
    assert_eq!(
        idle_cursor((250, 220), Some(s), DrawingTool::NoTool, &shapes, Some(0)),
        CursorKind::NwResize
    );
    // a corner of the shape, nothing selected: topmost scan still finds it
    assert_eq!(
        idle_cursor((250, 220), Some(s), DrawingTool::NoTool, &shapes, None),
        CursorKind::NwResize
    );
    // the shape's body shows the pointer hand
    assert_eq!(
        idle_cursor((200, 180), Some(s), DrawingTool::NoTool, &shapes, None),
        CursorKind::Pointer
    );
}

#[test]
fn active_modes_have_fixed_cursors() {
    let s = sel_box((100, 100), (300, 200));
    let shapes = Vec::new();
    let cases: Vec<(AppState, CursorKind)> = vec![
        (AppState::Selecting { selection: s }, CursorKind::Crosshair),
        (AppState::Dragging { offset: (10, 10) }, CursorKind::Move),
        (
            AppState::Resizing { handle: ResizeHandle::Left, anchor: (300, 150) },
            CursorKind::EwResize,
        ),
        (AppState::EditingShape { offset: (10, 10) }, CursorKind::Move),
        (
            AppState::ResizingShape { handle: ResizeHandle::Top, anchor: (100, 200) },
            CursorKind::NsResize,
        ),
    ];
    for (state, expected) in cases {
        let c = CursorManager::get_cursor_icon(
            (200, 150), &state, Some(s), DrawingTool::NoTool, &shapes, None, (1920, 1080));
        assert_eq!(c, expected);
    }
    let drawing = AppState::Drawing { shape: rect_shape((150, 150), (160, 160)) };
    let c = CursorManager::get_cursor_icon(
        (200, 150), &drawing, Some(s), DrawingTool::Rectangle, &shapes, None, (1920, 1080));
    assert_eq!(c, CursorKind::Crosshair);
}

#[test]
fn cursor_cache_updates_on_change() {
    let s = sel_box((100, 100), (300, 200));
    let shapes = Vec::new();
    let mut last = CursorKind::Default;
    let c = CursorManager::get_cursor_icon_with_cache(
        (200, 150), &AppState::Idle, Some(s), DrawingTool::NoTool, &shapes, None,
        (1920, 1080), &mut last);
    assert_eq!(c, CursorKind::Move);
    assert_eq!(last, CursorKind::Move);
}
