use overlay_core::editor::{AppState, Editor, KeyInput, PointerButton, SessionAction};
use overlay_core::geom::ResizeHandle;
use overlay_core::shapes::{DrawingShape, DrawingTool};

fn editor() -> Editor {
    Editor::new((1920, 1080))
}

/// Drags out a selection from `a` to `b` and releases.
fn make_selection(ed: &mut Editor, a: (i64, i64), b: (i64, i64)) {
    assert_eq!(ed.pointer_down(a.0, a.1, PointerButton::Primary), SessionAction::KeepRunning);
    assert!(matches!(ed.state, AppState::Selecting { .. }));
    ed.pointer_move(b.0, b.1);
    ed.pointer_up();
    assert!(matches!(ed.state, AppState::Idle));
}

#[test]
fn selection_drag_then_corner_resize() {
    // Drag a selection from (100,100) to (300,200) and release.
    let mut ed = editor();
    make_selection(&mut ed, (100, 100), (300, 200));
    assert_eq!(ed.selection.unwrap().bounds(), (100, 100, 300, 200));

    // Press within 8 px of the bottom-right corner: the corner handle
    // is picked up with the opposite corner as anchor.
    ed.pointer_down(296, 196, PointerButton::Primary);
    assert!(matches!(
        ed.state,
        AppState::Resizing { handle: ResizeHandle::BottomRight, anchor: (100, 100) }
    ));

    // Drag to (400,250) and release.
    ed.pointer_move(400, 250);
    ed.pointer_up();
    assert!(matches!(ed.state, AppState::Idle));
    assert_eq!(ed.selection.unwrap().bounds(), (100, 100, 400, 250));
}

#[test]
fn rectangle_tool_draws_one_rectangle() {
    let mut ed = editor();
    make_selection(&mut ed, (100, 100), (500, 400));

    // Click the rectangle button on the toolbar (first button).
    // Toolbar for this selection sits at x=190, y=415.
    ed.pointer_down(200, 420, PointerButton::Primary);
    assert_eq!(ed.tool, DrawingTool::Rectangle);
    assert!(matches!(ed.state, AppState::Idle));
    assert_eq!(ed.shapes.len(), 0);

    // Pointer-down inside the selection, on no shape: a zero-size
    // rectangle starts at the pointer.
    ed.pointer_down(150, 150, PointerButton::Primary);
    match &ed.state {
        AppState::Drawing { shape } => match shape {
            DrawingShape::Rectangle { start, end, .. } => {
                assert_eq!(*start, (150, 150));
                assert_eq!(*end, (150, 150));
            }
            _ => panic!("expected a rectangle in progress"),
        },
        _ => panic!("expected the drawing mode"),
    }

    // Pointer-move inside the selection sets the rectangle's end.
    ed.pointer_move(200, 180);
    match &ed.state {
        AppState::Drawing { shape } => match shape {
            DrawingShape::Rectangle { start, end, .. } => {
                assert_eq!(*start, (150, 150));
                assert_eq!(*end, (200, 180));
            }
            _ => panic!("expected a rectangle in progress"),
        },
        _ => panic!("expected the drawing mode"),
    }

    // Pointer-up appends exactly one rectangle and returns to idle.
    ed.pointer_up();
    assert!(matches!(ed.state, AppState::Idle));
    assert_eq!(ed.shapes.len(), 1);
    assert_eq!(ed.shapes[0].bounds(), (150, 150, 200, 180));
    assert!(matches!(ed.shapes[0], DrawingShape::Rectangle { .. }));
}

#[test]
fn drawing_is_clamped_into_the_selection() {
    let mut ed = editor();
    make_selection(&mut ed, (100, 100), (300, 200));
    ed.tool = DrawingTool::Rectangle;
    ed.pointer_down(150, 150, PointerButton::Primary);
    ed.pointer_move(500, 50);
    ed.pointer_up();
    assert_eq!(ed.shapes[0].bounds(), (150, 100, 300, 150));
}

#[test]
fn circle_tool_radius_follows_pointer_and_selection_cap() {
    let mut ed = editor();
    make_selection(&mut ed, (100, 100), (400, 300));
    ed.tool = DrawingTool::Circle;
    ed.pointer_down(200, 150, PointerButton::Primary);
    // 3-4-5 triangle: distance 50 equals the cap (50 px to the top edge).
    ed.pointer_move(230, 190);
    ed.pointer_up();
    match &ed.shapes[0] {
        DrawingShape::Circle { center, radius, .. } => {
            assert_eq!(*center, (200, 150));
            assert_eq!(*radius, 50);
        }
        _ => panic!("expected a circle"),
    }
}

#[test]
fn brush_tool_records_points_inside_selection_only() {
    let mut ed = editor();
    make_selection(&mut ed, (100, 100), (300, 200));
    ed.tool = DrawingTool::Brush;
    ed.pointer_down(150, 150, PointerButton::Primary);
    ed.pointer_move(160, 150);
    ed.pointer_move(160, 160);
    // outside the selection: not recorded
    ed.pointer_move(400, 400);
    ed.pointer_up();
    match &ed.shapes[0] {
        DrawingShape::BrushStroke { points, .. } => {
            assert_eq!(points.as_slice(), &[(150, 150), (160, 150), (160, 160)]);
        }
        _ => panic!("expected a brush stroke"),
    }
}

#[test]
fn dragging_moves_selection_and_clamps_to_screen() {
    let mut ed = editor();
    make_selection(&mut ed, (100, 100), (300, 200));
    ed.pointer_down(150, 150, PointerButton::Primary);
    assert!(matches!(ed.state, AppState::Dragging { offset: (50, 50) }));
    ed.pointer_move(250, 250);
    assert_eq!(ed.selection.unwrap().bounds(), (200, 200, 400, 300));
    // push far past the top-left corner: clamped at the screen edge
    ed.pointer_move(10, 10);
    assert_eq!(ed.selection.unwrap().bounds(), (0, 0, 200, 100));
    ed.pointer_up();
    assert!(matches!(ed.state, AppState::Idle));
}

#[test]
fn edge_resize_moves_only_one_edge() {
    let mut ed = editor();
    make_selection(&mut ed, (100, 100), (300, 200));
    ed.pointer_down(200, 100, PointerButton::Primary);
    assert!(matches!(ed.state, AppState::Resizing { handle: ResizeHandle::Top, .. }));
    ed.pointer_move(500, 50);
    assert_eq!(ed.selection.unwrap().bounds(), (100, 50, 300, 200));
    ed.pointer_up();
}

#[test]
fn resize_enforces_minimum_size() {
    let mut ed = editor();
    make_selection(&mut ed, (100, 100), (300, 200));
    ed.pointer_down(300, 200, PointerButton::Primary);
    assert!(matches!(ed.state, AppState::Resizing { handle: ResizeHandle::BottomRight, .. }));
    // drag past the anchor: the selection keeps its minimum size
    ed.pointer_move(50, 50);
    assert_eq!(ed.selection.unwrap().bounds(), (100, 100, 110, 110));
    ed.pointer_up();
}

#[test]
fn shape_body_click_enters_editing_and_moves_shape() {
    let mut ed = editor();
    make_selection(&mut ed, (100, 100), (400, 300));
    ed.tool = DrawingTool::Rectangle;
    ed.pointer_down(150, 150, PointerButton::Primary);
    ed.pointer_move(200, 180);
    ed.pointer_up();
    ed.tool = DrawingTool::NoTool;

    ed.pointer_down(160, 160, PointerButton::Primary);
    assert!(matches!(ed.state, AppState::EditingShape { offset: (10, 10) }));
    assert_eq!(ed.selected_shape, Some(0));
    ed.pointer_move(300, 200);
    ed.pointer_up();
    assert_eq!(ed.shapes[0].bounds(), (290, 190, 340, 220));
}

#[test]
fn moved_shape_is_kept_inside_selection() {
    let mut ed = editor();
    make_selection(&mut ed, (100, 100), (400, 300));
    ed.tool = DrawingTool::Rectangle;
    ed.pointer_down(150, 150, PointerButton::Primary);
    ed.pointer_move(200, 180);
    ed.pointer_up();
    ed.tool = DrawingTool::NoTool;

    ed.pointer_down(160, 160, PointerButton::Primary);
    // try to drag the shape far outside the selection
    ed.pointer_move(1900, 1000);
    ed.pointer_up();
    let (l, t, r, b) = ed.shapes[0].bounds();
    assert!(l >= 100 && r <= 400 && t >= 100 && b <= 300);
    assert_eq!((r - l, b - t), (50, 30));
}

#[test]
fn selected_shape_corner_resizes_shape() {
    let mut ed = editor();
    make_selection(&mut ed, (100, 100), (400, 300));
    ed.tool = DrawingTool::Rectangle;
    ed.pointer_down(290, 190, PointerButton::Primary);
    ed.pointer_move(340, 220);
    ed.pointer_up();
    ed.tool = DrawingTool::NoTool;
    ed.selected_shape = Some(0);

    ed.pointer_down(340, 220, PointerButton::Primary);
    assert!(matches!(
        ed.state,
        AppState::ResizingShape { handle: ResizeHandle::BottomRight, anchor: (290, 190) }
    ));
    ed.pointer_move(360, 240);
    ed.pointer_up();
    assert_eq!(ed.shapes[0].bounds(), (290, 190, 360, 240));
}

#[test]
fn click_outside_selection_is_ignored() {
    let mut ed = editor();
    make_selection(&mut ed, (100, 100), (300, 200));
    ed.tool = DrawingTool::Arrow;
    let r = ed.pointer_down(800, 700, PointerButton::Primary);
    assert_eq!(r, SessionAction::KeepRunning);
    assert!(matches!(ed.state, AppState::Idle));
    assert_eq!(ed.tool, DrawingTool::Arrow);
    assert_eq!(ed.shapes.len(), 0);
}

#[test]
fn toolbar_buttons_select_tools() {
    let mut ed = editor();
    make_selection(&mut ed, (100, 100), (300, 200));
    // toolbar box is [90, 310] x [215, 245]; buttons are 45 px apart
    ed.pointer_down(100, 230, PointerButton::Primary);
    assert_eq!(ed.tool, DrawingTool::Rectangle);
    ed.pointer_down(145, 230, PointerButton::Primary);
    assert_eq!(ed.tool, DrawingTool::Circle);
    ed.pointer_down(190, 230, PointerButton::Primary);
    assert_eq!(ed.tool, DrawingTool::Arrow);
    ed.pointer_down(235, 230, PointerButton::Primary);
    assert_eq!(ed.tool, DrawingTool::Brush);
    assert_eq!(ed.selected_shape, None);
}

#[test]
fn close_button_ends_session_and_keeps_selection() {
    let mut ed = editor();
    make_selection(&mut ed, (100, 100), (300, 200));
    let r = ed.pointer_down(280, 230, PointerButton::Primary);
    assert_eq!(r, SessionAction::Exit);
    assert!(matches!(ed.state, AppState::Idle));
    assert!(ed.selection.is_some());
}

#[test]
fn starting_a_new_selection_resets_tool_and_pick() {
    let mut ed = editor();
    assert!(ed.selection.is_none());
    ed.pointer_down(50, 60, PointerButton::Primary);
    assert!(matches!(ed.state, AppState::Selecting { .. }));
    assert_eq!(ed.tool, DrawingTool::NoTool);
    assert_eq!(ed.selected_shape, None);
}

#[test]
fn escape_and_right_click_end_the_session() {
    let mut ed = editor();
    assert_eq!(ed.key_down(KeyInput::Escape), SessionAction::Exit);
    assert_eq!(ed.key_down(KeyInput::Other), SessionAction::KeepRunning);
    let r = ed.pointer_down(10, 10, PointerButton::Secondary);
    assert_eq!(r, SessionAction::Exit);
    assert!(matches!(ed.state, AppState::Idle));
}

#[test]
fn renderer_sees_temp_selection_while_selecting() {
    let mut ed = editor();
    assert!(ed.visible_selection().is_none());
    ed.pointer_down(100, 100, PointerButton::Primary);
    ed.pointer_move(300, 200);
    let temp = ed.visible_selection().unwrap();
    assert_eq!(temp.bounds(), (100, 100, 300, 200));
    ed.pointer_up();
    assert_eq!(ed.visible_selection().unwrap().bounds(), (100, 100, 300, 200));
}

#[test]
fn renderer_sees_the_shape_in_progress() {
    let mut ed = editor();
    make_selection(&mut ed, (100, 100), (300, 200));
    assert!(ed.current_drawing().is_none());
    ed.tool = DrawingTool::Arrow;
    ed.pointer_down(150, 150, PointerButton::Primary);
    ed.pointer_move(250, 180);
    let shape = ed.current_drawing().unwrap();
    assert!(matches!(shape, DrawingShape::Arrow { .. }));
    assert_eq!(shape.bounds(), (150, 150, 250, 180));
    ed.pointer_up();
    assert!(ed.current_drawing().is_none());
}
