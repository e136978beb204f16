//! The cursor-feedback resolver: a pure function from the interaction
//! state and the pointer position to a cursor symbol, reproducing the
//! same hit-testing priority the state machine uses, so that the
//! cursor shown always matches what a click would do.

use vstd::prelude::*;
use crate::geom::{Selection, ResizeHandle, handle_at, spec_point_in_rect, get_resize_handle, point_in_rect};
use crate::shapes::{DrawingShape, DrawingTool};
use crate::toolbar::{Toolbar, spec_toolbar_contains_at};
use crate::editor::{
    AppState, Editor, SessionAction, pointer_down_post, topmost_handle_hit, topmost_body_hit,
    top_shape_handle, top_shape_at,
};
use crate::{MAX_DIM, in_range};

verus! {

/// The cursor symbols the overlay shows.  The shell maps them onto
/// the windowing system's cursor icons.
#[derive(Debug, Clone, Copy, PartialEq, Eq, Structural)]
pub enum CursorKind {
    Default,
    Crosshair,
    Move,
    Pointer,
    NotAllowed,
    NwResize,
    NeResize,
    NsResize,
    EwResize,
}

/// The directional resize cursor for a handle: diagonal for corners,
/// vertical or horizontal for edge midpoints.
pub open spec fn spec_handle_cursor(handle: ResizeHandle) -> CursorKind {
    match handle {
        ResizeHandle::TopLeft | ResizeHandle::BottomRight => CursorKind::NwResize,
        ResizeHandle::TopRight | ResizeHandle::BottomLeft => CursorKind::NeResize,
        ResizeHandle::Top | ResizeHandle::Bottom => CursorKind::NsResize,
        ResizeHandle::Left | ResizeHandle::Right => CursorKind::EwResize,
    }
}

pub fn resize_handle_to_cursor(handle: ResizeHandle) -> (r: CursorKind)
    ensures r == spec_handle_cursor(handle),
{
    match handle {
        ResizeHandle::TopLeft | ResizeHandle::BottomRight => CursorKind::NwResize,
        ResizeHandle::TopRight | ResizeHandle::BottomLeft => CursorKind::NeResize,
        ResizeHandle::Top | ResizeHandle::Bottom => CursorKind::NsResize,
        ResizeHandle::Left | ResizeHandle::Right => CursorKind::EwResize,
    }
}

/// The cursor while a drawing tool is active: a crosshair, or the
/// default when no tool is selected.
pub open spec fn spec_drawing_cursor(tool: DrawingTool) -> CursorKind {
    if tool is NoTool {
        CursorKind::Default
    } else {
        CursorKind::Crosshair
    }
}

/// The cursor inside the selection while idle, mirroring the pointer-
/// down priority there: the selected shape's handle, then any shape's
/// handle topmost-first, then any shape's body, then the active tool's
/// crosshair or the selection-drag move cursor.
pub open spec fn spec_selection_area_cursor(
    x: int, y: int, tool: DrawingTool, shapes: Seq<DrawingShape>, selected: Option<usize>,
) -> CursorKind {
    let sel_handle = match selected {
        Option::Some(idx) => if idx < shapes.len() {
            shapes[idx as int].spec_resize_handle_at(x, y)
        } else {
            Option::None
        },
        Option::None => Option::None,
    };
    if sel_handle is Some {
        spec_handle_cursor(sel_handle.unwrap())
    } else if topmost_handle_hit(shapes, x, y) is Some {
        let i = topmost_handle_hit(shapes, x, y).unwrap();
        spec_handle_cursor(shapes[i].spec_resize_handle_at(x, y).unwrap())
    } else if topmost_body_hit(shapes, x, y) is Some {
        CursorKind::Pointer
    } else if tool is NoTool {
        CursorKind::Move
    } else {
        spec_drawing_cursor(tool)
    }
}

/// The idle cursor: the toolbar's pointer hand first, then the
/// selection's resize handles, then the selection area, and the
/// forbidden sign outside the selection; the default cursor when no
/// selection exists yet.
pub open spec fn spec_idle_cursor(
    x: int, y: int, selection: Option<Selection>, tool: DrawingTool,
    shapes: Seq<DrawingShape>, selected: Option<usize>, sw: int, sh: int,
) -> CursorKind {
    match selection {
        Option::Some(sel) => {
            let (sl, st, sr, sb) = sel.spec_bounds();
            if spec_toolbar_contains_at(sel, sw, sh, x, y) {
                CursorKind::Pointer
            } else if handle_at(x, y, sl, st, sr, sb) is Some {
                spec_handle_cursor(handle_at(x, y, sl, st, sr, sb).unwrap())
            } else if spec_point_in_rect(x, y, sel) {
                spec_selection_area_cursor(x, y, tool, shapes, selected)
            } else {
                CursorKind::NotAllowed
            }
        },
        Option::None => CursorKind::Default,
    }
}

/// The cursor for the whole machine: a fixed cursor per active mode
/// (the recorded handle's directional cursor while resizing), and the
/// full hit-testing cascade while idle.
pub open spec fn spec_cursor(
    x: int, y: int, state: AppState, selection: Option<Selection>, tool: DrawingTool,
    shapes: Seq<DrawingShape>, selected: Option<usize>, sw: int, sh: int,
) -> CursorKind {
    match state {
        AppState::Selecting { .. } => CursorKind::Crosshair,
        AppState::Dragging { .. } => CursorKind::Move,
        AppState::Resizing { handle, .. } => spec_handle_cursor(handle),
        AppState::Drawing { .. } => spec_drawing_cursor(tool),
        AppState::EditingShape { .. } => CursorKind::Move,
        AppState::ResizingShape { handle, .. } => spec_handle_cursor(handle),
        AppState::Idle => spec_idle_cursor(x, y, selection, tool, shapes, selected, sw, sh),
    }
}

/// The resolver agrees with the state machine: while the machine is
/// idle over a committed selection, the cursor announces what a
/// primary click at the same point would do — the handle's directional
/// arrow where the click starts a resize of the selection or of a
/// shape, a pointer hand over a shape body the click would pick up, a
/// move cursor where it starts dragging the selection, and a crosshair
/// where it starts drawing.
pub proof fn lemma_cursor_announces_click(
    pre: Editor, post: Editor, x: i64, y: i64, r: SessionAction,
)
    requires
        pre.wf(),
        pre.state is Idle,
        pre.selection is Some,
        pointer_down_post(pre, post, x, y, r),
    ensures
        ({
            let c = spec_cursor(
                x as int, y as int, pre.state, pre.selection, pre.tool, pre.shapes@,
                pre.selected_shape, pre.screen.0 as int, pre.screen.1 as int);
            &&& post.state matches AppState::Resizing { handle, .. }
                ==> c == spec_handle_cursor(handle)
            &&& post.state matches AppState::ResizingShape { handle, .. }
                ==> c == spec_handle_cursor(handle)
            &&& (post.state matches AppState::EditingShape { .. }) ==> c == CursorKind::Pointer
            &&& (post.state matches AppState::Dragging { .. }) ==> c == CursorKind::Move
            &&& (post.state matches AppState::Drawing { .. }) ==> c == CursorKind::Crosshair
        }),
{
    let sel = pre.selection.unwrap();
    let sw = pre.screen.0 as int;
    let sh = pre.screen.1 as int;
    let xi = x as int;
    let yi = y as int;
    if spec_toolbar_contains_at(sel, sw, sh, xi, yi) {
        let (tx, ty) = crate::toolbar::spec_toolbar_pos(sel, sw, sh);
        assert(0 <= xi - tx <= crate::toolbar::spec_toolbar_width());
        assert((xi - tx) / (crate::BUTTON_WIDTH + crate::BUTTON_SPACING) < crate::TOTAL_BUTTONS);
        assert(crate::toolbar::spec_toolbar_button_at(sel, sw, sh, xi, yi) is Some);
    }
}

/// Chooses cursors every frame; stateless but for the caller-held
/// cache of the last cursor.
pub struct CursorManager;

impl CursorManager {
    /// The cursor while a drawing tool is active.
    pub fn get_drawing_cursor(tool: DrawingTool) -> (r: CursorKind)
        ensures r == spec_drawing_cursor(tool),
    {
        match tool {
            DrawingTool::NoTool => CursorKind::Default,
            _ => CursorKind::Crosshair,
        }
    }

    /// The cursor for a point inside the idle selection.
    pub fn get_selection_area_cursor(
        x: i64, y: i64, current_tool: DrawingTool, drawing_shapes: &Vec<DrawingShape>,
        selected_shape_index: Option<usize>,
    ) -> (r: CursorKind)
        requires
            in_range(x as int), in_range(y as int),
            forall|i: int| 0 <= i < drawing_shapes@.len()
                ==> (#[trigger] drawing_shapes@[i]).wf(),
        ensures
            r == spec_selection_area_cursor(
                x as int, y as int, current_tool, drawing_shapes@, selected_shape_index),
    {
        if let Some(idx) = selected_shape_index {
            if idx < drawing_shapes.len() {
                if let Some(h) = drawing_shapes[idx].get_resize_handle(x, y) {
                    return resize_handle_to_cursor(h);
                }
            }
        }
        if let Some((_, h)) = top_shape_handle(drawing_shapes, x, y) {
            return resize_handle_to_cursor(h);
        }
        if let Some(_) = top_shape_at(drawing_shapes, x, y) {
            return CursorKind::Pointer;
        }
        if let DrawingTool::NoTool = current_tool {
            CursorKind::Move
        } else {
            Self::get_drawing_cursor(current_tool)
        }
    }

    /// The idle cursor for the pointer position.
    pub fn get_idle_cursor(
        x: i64, y: i64, current_selection: Option<Selection>, current_tool: DrawingTool,
        drawing_shapes: &Vec<DrawingShape>, selected_shape_index: Option<usize>,
        screen_size: (u32, u32),
    ) -> (r: CursorKind)
        requires
            in_range(x as int), in_range(y as int),
            screen_size.0 as int <= MAX_DIM, screen_size.1 as int <= MAX_DIM,
            current_selection matches Some(s) ==> s.wf(),
            forall|i: int| 0 <= i < drawing_shapes@.len()
                ==> (#[trigger] drawing_shapes@[i]).wf(),
        ensures
            r == spec_idle_cursor(
                x as int, y as int, current_selection, current_tool, drawing_shapes@,
                selected_shape_index, screen_size.0 as int, screen_size.1 as int),
    {
        if let Some(sel) = current_selection {
            let toolbar = Toolbar::calculate(&sel, screen_size);
            if toolbar.contains_point(x, y) {
                CursorKind::Pointer
            } else if let Some(h) = get_resize_handle(x, y, &sel) {
                resize_handle_to_cursor(h)
            } else if point_in_rect(x, y, &sel) {
                Self::get_selection_area_cursor(
                    x, y, current_tool, drawing_shapes, selected_shape_index)
            } else {
                CursorKind::NotAllowed
            }
        } else {
            CursorKind::Default
        }
    }

    /// The cursor for the current machine state and pointer position.
    pub fn get_cursor_icon(
        mouse_pos: (i64, i64), app_state: &AppState, current_selection: Option<Selection>,
        current_tool: DrawingTool, drawing_shapes: &Vec<DrawingShape>,
        selected_shape_index: Option<usize>, screen_size: (u32, u32),
    ) -> (r: CursorKind)
        requires
            in_range(mouse_pos.0 as int), in_range(mouse_pos.1 as int),
            screen_size.0 as int <= MAX_DIM, screen_size.1 as int <= MAX_DIM,
            current_selection matches Some(s) ==> s.wf(),
            forall|i: int| 0 <= i < drawing_shapes@.len()
                ==> (#[trigger] drawing_shapes@[i]).wf(),
        ensures
            r == spec_cursor(
                mouse_pos.0 as int, mouse_pos.1 as int, *app_state, current_selection,
                current_tool, drawing_shapes@, selected_shape_index,
                screen_size.0 as int, screen_size.1 as int),
    {
        match app_state {
            AppState::Selecting { .. } => CursorKind::Crosshair,
            AppState::Dragging { .. } => CursorKind::Move,
            AppState::Resizing { handle, .. } => resize_handle_to_cursor(*handle),
            AppState::Drawing { .. } => Self::get_drawing_cursor(current_tool),
            AppState::EditingShape { .. } => CursorKind::Move,
            AppState::ResizingShape { handle, .. } => resize_handle_to_cursor(*handle),
            AppState::Idle => Self::get_idle_cursor(
                mouse_pos.0, mouse_pos.1, current_selection, current_tool, drawing_shapes,
                selected_shape_index, screen_size),
        }
    }

    /// Like `get_cursor_icon`, but also updates the caller's record of
    /// the last cursor, so a renderer can skip redrawing an unchanged
    /// one.
    pub fn get_cursor_icon_with_cache(
        mouse_pos: (i64, i64), app_state: &AppState, current_selection: Option<Selection>,
        current_tool: DrawingTool, drawing_shapes: &Vec<DrawingShape>,
        selected_shape_index: Option<usize>, screen_size: (u32, u32),
        last_cursor: &mut CursorKind,
    ) -> (r: CursorKind)
        requires
            in_range(mouse_pos.0 as int), in_range(mouse_pos.1 as int),
            screen_size.0 as int <= MAX_DIM, screen_size.1 as int <= MAX_DIM,
            current_selection matches Some(s) ==> s.wf(),
            forall|i: int| 0 <= i < drawing_shapes@.len()
                ==> (#[trigger] drawing_shapes@[i]).wf(),
        ensures
            r == spec_cursor(
                mouse_pos.0 as int, mouse_pos.1 as int, *app_state, current_selection,
                current_tool, drawing_shapes@, selected_shape_index,
                screen_size.0 as int, screen_size.1 as int),
            *final(last_cursor) == r,
    {
        let new_cursor = Self::get_cursor_icon(
            mouse_pos, app_state, current_selection, current_tool, drawing_shapes,
            selected_shape_index, screen_size);
        if new_cursor != *last_cursor {
            *last_cursor = new_cursor;
        }
        new_cursor
    }
}

} // verus!
