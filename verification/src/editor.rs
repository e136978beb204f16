//! The interaction state machine: owns the selection, the shape
//! sequence and the transient per-mode fields, and interprets
//! pointer-down, pointer-move, pointer-up and key events against the
//! geometry of the other modules.

use vstd::prelude::*;
use crate::geom::{
    Selection, ResizeHandle, handle_at, spec_resize_anchor, spec_point_in_rect,
    spec_constrained_pos, clamp, get_resize_handle, get_resize_anchor, point_in_rect,
    constrain_to_screen, isqrt,
};
use crate::shapes::{
    DrawingShape, DrawingTool, Rgb, lemma_envelope, lemma_points_envelope,
};
use crate::toolbar::Toolbar;
use crate::{
    COORD_LIMIT, MAX_DIM, MIN_SELECTION_SIZE, MIN_SHAPE_SIZE, MAX_BRUSH_POINTS,
    BRUSH_TRIM_BLOCK, MIN_BRUSH_POINT_DIST, in_range,
};

verus! {

/// The machine state.  Exactly one mode is active at a time; the
/// transient fields of a mode (drag offsets, the active handle and its
/// anchor, the shape being drawn, the selection being dragged out) are
/// carried in its variant, so they exist exactly while the mode is
/// active and are gone when it ends.
#[derive(Debug)]
pub enum AppState {
    Idle,
    Selecting { selection: Selection },
    Dragging { offset: (i64, i64) },
    Resizing { handle: ResizeHandle, anchor: (i64, i64) },
    Drawing { shape: DrawingShape },
    EditingShape { offset: (i64, i64) },
    ResizingShape { handle: ResizeHandle, anchor: (i64, i64) },
}

/// What the surrounding shell must do after an event.
#[derive(Debug, Clone, Copy, PartialEq, Eq, Structural)]
pub enum SessionAction {
    KeepRunning,
    Exit,
}

/// Which pointer button went down.
#[derive(Debug, Clone, Copy, PartialEq, Eq, Structural)]
pub enum PointerButton {
    Primary,
    Secondary,
}

/// A key the state machine reacts to.
#[derive(Debug, Clone, Copy, PartialEq, Eq, Structural)]
pub enum KeyInput {
    Escape,
    Other,
}

/// The default paint attributes of a newly drawn shape.
pub open spec fn default_color() -> Rgb {
    Rgb { r: 255, g: 0, b: 0 }
}

pub const DEFAULT_STROKE_WIDTH: i64 = 1;

/// The shape's defining points all lie in the box `sb`, and a circle's
/// radius keeps it inside `sb` on every side.
pub open spec fn shape_within(shape: DrawingShape, sb: (int, int, int, int)) -> bool {
    &&& forall|i: int| 0 <= i < shape.spec_points().len() ==> {
        let p = #[trigger] shape.spec_points()[i];
        sb.0 <= p.0 as int <= sb.2 && sb.1 <= p.1 as int <= sb.3
    }
    &&& shape matches DrawingShape::Circle { center, radius, .. } ==> {
        radius as int <= center.0 - sb.0 && radius as int <= sb.2 - center.0
            && radius as int <= center.1 - sb.1 && radius as int <= sb.3 - center.1
    }
}

/// A shape kept inside a well-formed selection is bounded and its box
/// lies inside the selection's.
pub proof fn lemma_within_bounded(shape: DrawingShape, s: Selection)
    requires
        shape.wf(),
        s.wf(),
        shape_within(shape, s.spec_bounds()),
    ensures
        shape.bounded(),
        ({
            let (l, t, r, b) = shape.spec_bounds();
            let (sl, st, sr, sb) = s.spec_bounds();
            sl <= l && r <= sr && st <= t && b <= sb
        }),
{
    lemma_envelope(shape.spec_points());
    lemma_points_envelope(shape);
}

/// The topmost shape (highest index, drawn last) with a resize handle
/// at `(x, y)`.
pub open spec fn topmost_handle_hit(shapes: Seq<DrawingShape>, x: int, y: int) -> Option<int>
    decreases shapes.len(),
{
    if shapes.len() == 0 {
        None
    } else if shapes.last().spec_resize_handle_at(x, y) is Some {
        Some(shapes.len() - 1)
    } else {
        topmost_handle_hit(shapes.drop_last(), x, y)
    }
}

/// The topmost shape whose body contains `(x, y)`.
pub open spec fn topmost_body_hit(shapes: Seq<DrawingShape>, x: int, y: int) -> Option<int>
    decreases shapes.len(),
{
    if shapes.len() == 0 {
        None
    } else if shapes.last().spec_contains(x, y) {
        Some(shapes.len() - 1)
    } else {
        topmost_body_hit(shapes.drop_last(), x, y)
    }
}

/// Characterizes `topmost_handle_hit`: the hit index has a handle at
/// the point, nothing above it does, and a miss means no shape has one.
pub proof fn lemma_topmost_handle_hit(shapes: Seq<DrawingShape>, x: int, y: int)
    ensures
        match topmost_handle_hit(shapes, x, y) {
            Some(i) => 0 <= i < shapes.len()
                && shapes[i].spec_resize_handle_at(x, y) is Some
                && forall|j: int| i < j < shapes.len()
                    ==> (#[trigger] shapes[j]).spec_resize_handle_at(x, y) is None,
            None => forall|j: int| 0 <= j < shapes.len()
                ==> (#[trigger] shapes[j]).spec_resize_handle_at(x, y) is None,
        },
    decreases shapes.len(),
{
    if shapes.len() > 0 && shapes.last().spec_resize_handle_at(x, y) is None {
        lemma_topmost_handle_hit(shapes.drop_last(), x, y);
        assert(forall|j: int| 0 <= j < shapes.len() - 1
            ==> shapes.drop_last()[j] == #[trigger] shapes[j]);
    }
}

/// Characterizes `topmost_body_hit` in the same way.
pub proof fn lemma_topmost_body_hit(shapes: Seq<DrawingShape>, x: int, y: int)
    ensures
        match topmost_body_hit(shapes, x, y) {
            Some(i) => 0 <= i < shapes.len()
                && shapes[i].spec_contains(x, y)
                && forall|j: int| i < j < shapes.len()
                    ==> !(#[trigger] shapes[j]).spec_contains(x, y),
            None => forall|j: int| 0 <= j < shapes.len()
                ==> !(#[trigger] shapes[j]).spec_contains(x, y),
        },
    decreases shapes.len(),
{
    if shapes.len() > 0 && !shapes.last().spec_contains(x, y) {
        lemma_topmost_body_hit(shapes.drop_last(), x, y);
        assert(forall|j: int| 0 <= j < shapes.len() - 1
            ==> shapes.drop_last()[j] == #[trigger] shapes[j]);
    }
}

/// Both corners of the selection lie on the screen.  Committed
/// selections always do: they are made from on-screen pointer
/// positions and every drag or resize is clamped back onto the screen.
pub open spec fn sel_on_screen(s: Selection, sw: int, sh: int) -> bool {
    &&& 0 <= s.start.0 as int <= sw && 0 <= s.start.1 as int <= sh
    &&& 0 <= s.end.0 as int <= sw && 0 <= s.end.1 as int <= sh
}

/// The whole interaction state: the machine mode, the committed
/// selection, the active tool, the drawn shapes in z-order, and which
/// shape is selected for editing.
pub struct Editor {
    pub screen: (u32, u32),
    pub state: AppState,
    pub selection: Option<Selection>,
    pub tool: DrawingTool,
    pub shapes: Vec<DrawingShape>,
    pub selected_shape: Option<usize>,
}

impl Editor {
    /// The editor's invariant: a positive bounded screen, a committed
    /// selection near the screen, bounded shapes, a valid selected
    /// index, and per-mode conditions on the transient fields.
    pub open spec fn wf(self) -> bool {
        &&& MIN_SELECTION_SIZE <= self.screen.0 as int <= MAX_DIM
        &&& MIN_SELECTION_SIZE <= self.screen.1 as int <= MAX_DIM
        &&& self.selection matches Some(s)
            ==> sel_on_screen(s, self.screen.0 as int, self.screen.1 as int)
        &&& forall|i: int| 0 <= i < self.shapes@.len() ==> (#[trigger] self.shapes@[i]).bounded()
        &&& self.selected_shape matches Some(i) ==> i < self.shapes@.len()
        &&& match self.state {
            AppState::Idle => true,
            AppState::Selecting { selection } =>
                sel_on_screen(selection, self.screen.0 as int, self.screen.1 as int),
            AppState::Dragging { offset } =>
                self.selection is Some
                && -4 * COORD_LIMIT <= offset.0 as int <= 4 * COORD_LIMIT
                && -4 * COORD_LIMIT <= offset.1 as int <= 4 * COORD_LIMIT,
            AppState::Resizing { handle, anchor } =>
                self.selection is Some
                && 0 <= anchor.0 as int <= self.screen.0 as int
                && 0 <= anchor.1 as int <= self.screen.1 as int,
            AppState::Drawing { shape } =>
                self.selection matches Some(s)
                && shape.wf()
                && shape_within(shape, s.spec_bounds()),
            AppState::EditingShape { offset } =>
                self.selection is Some
                && -8 * COORD_LIMIT <= offset.0 as int <= 8 * COORD_LIMIT
                && -8 * COORD_LIMIT <= offset.1 as int <= 8 * COORD_LIMIT,
            AppState::ResizingShape { handle, anchor } =>
                self.selection is Some
                && -4 * COORD_LIMIT <= anchor.0 as int <= 4 * COORD_LIMIT
                && -4 * COORD_LIMIT <= anchor.1 as int <= 4 * COORD_LIMIT,
        }
    }

    /// A fresh editor for a screen of the given pixel size: idle, with
    /// no selection, no tool and no shapes.
    pub fn new(screen_size: (u32, u32)) -> (r: Editor)
        requires
            MIN_SELECTION_SIZE <= screen_size.0 as int <= MAX_DIM,
            MIN_SELECTION_SIZE <= screen_size.1 as int <= MAX_DIM,
        ensures
            r.wf(),
            r.screen.0 as int == screen_size.0 as int,
            r.screen.1 as int == screen_size.1 as int,
            r.state is Idle,
            r.selection is None,
            r.tool == DrawingTool::NoTool,
            r.shapes@.len() == 0,
            r.selected_shape is None,
    {
        Editor {
            screen: screen_size,
            state: AppState::Idle,
            selection: None,
            tool: DrawingTool::NoTool,
            shapes: Vec::new(),
            selected_shape: None,
        }
    }

    /// The selection the renderer outlines this frame: the committed
    /// one, or the one being dragged out while selecting.
    pub fn visible_selection(&self) -> (r: Option<Selection>)
        ensures
            self.selection is Some ==> r == self.selection,
            self.selection is None ==> match self.state {
                AppState::Selecting { selection } => r == Some(selection),
                _ => r is None,
            },
    {
        if self.selection.is_some() {
            self.selection
        } else {
            match &self.state {
                AppState::Selecting { selection } => Some(*selection),
                _ => None,
            }
        }
    }

    /// The shape being drawn at this moment, if the machine is in its
    /// drawing mode; the renderer paints it on top of the committed
    /// shapes.
    pub fn current_drawing(&self) -> (r: Option<&DrawingShape>)
        ensures
            match self.state {
                AppState::Drawing { shape } => r matches Some(p) && *p == shape,
                _ => r is None,
            },
    {
        match &self.state {
            AppState::Drawing { shape } => Some(shape),
            _ => None,
        }
    }

    /// A key event: Escape ends the whole session regardless of state;
    /// every other key does nothing.
    pub fn key_down(&mut self, key: KeyInput) -> (r: SessionAction)
        requires old(self).wf(),
        ensures
            *final(self) == *old(self),
            r == (if key is Escape { SessionAction::Exit } else { SessionAction::KeepRunning }),
    {
        match key {
            KeyInput::Escape => SessionAction::Exit,
            KeyInput::Other => SessionAction::KeepRunning,
        }
    }

    /// Pointer released: commits what the active mode was building and
    /// returns to idle.  Drawing appends the finished shape to the
    /// sequence; selecting commits the dragged-out selection as the
    /// real one; every other mode just drops its transient fields.
    pub fn pointer_up(&mut self)
        requires old(self).wf(),
        ensures
            final(self).wf(),
            final(self).state is Idle,
            final(self).screen == old(self).screen,
            final(self).tool == old(self).tool,
            final(self).selected_shape == old(self).selected_shape,
            match old(self).state {
                AppState::Drawing { shape } =>
                    final(self).shapes@ =~= old(self).shapes@.push(shape)
                    && final(self).selection == old(self).selection,
                AppState::Selecting { selection } =>
                    final(self).selection == Some(selection)
                    && final(self).shapes@ == old(self).shapes@,
                _ =>
                    final(self).shapes@ == old(self).shapes@
                    && final(self).selection == old(self).selection,
            },
    {
        let mut st = AppState::Idle;
        core::mem::swap(&mut st, &mut self.state);
        match st {
            AppState::Drawing { shape } => {
                proof {
                    if let Some(s) = old(self).selection {
                        lemma_within_bounded(shape, s);
                    }
                }
                self.shapes.push(shape);
            }
            AppState::Selecting { selection } => {
                self.selection = Some(selection);
            }
            _ => {}
        }
    }
}

/// A witness pins `topmost_handle_hit`: if shape `k` has a handle at
/// the point and no shape above it does, `k` is the topmost hit.
proof fn lemma_topmost_handle_witness(shapes: Seq<DrawingShape>, x: int, y: int, k: int)
    requires
        0 <= k < shapes.len(),
        shapes[k].spec_resize_handle_at(x, y) is Some,
        forall|j: int| k < j < shapes.len()
            ==> (#[trigger] shapes[j]).spec_resize_handle_at(x, y) is None,
    ensures topmost_handle_hit(shapes, x, y) == Some(k),
    decreases shapes.len(),
{
    if k < shapes.len() - 1 {
        assert(forall|j: int| 0 <= j < shapes.len() - 1
            ==> shapes.drop_last()[j] == #[trigger] shapes[j]);
        lemma_topmost_handle_witness(shapes.drop_last(), x, y, k);
    }
}

/// No shape has a handle at the point: the scan misses.
proof fn lemma_topmost_handle_miss(shapes: Seq<DrawingShape>, x: int, y: int)
    requires
        forall|j: int| 0 <= j < shapes.len()
            ==> (#[trigger] shapes[j]).spec_resize_handle_at(x, y) is None,
    ensures topmost_handle_hit(shapes, x, y) is None,
    decreases shapes.len(),
{
    if shapes.len() > 0 {
        assert(forall|j: int| 0 <= j < shapes.len() - 1
            ==> shapes.drop_last()[j] == #[trigger] shapes[j]);
        lemma_topmost_handle_miss(shapes.drop_last(), x, y);
    }
}

/// A witness pins `topmost_body_hit` in the same way.
proof fn lemma_topmost_body_witness(shapes: Seq<DrawingShape>, x: int, y: int, k: int)
    requires
        0 <= k < shapes.len(),
        shapes[k].spec_contains(x, y),
        forall|j: int| k < j < shapes.len() ==> !(#[trigger] shapes[j]).spec_contains(x, y),
    ensures topmost_body_hit(shapes, x, y) == Some(k),
    decreases shapes.len(),
{
    if k < shapes.len() - 1 {
        assert(forall|j: int| 0 <= j < shapes.len() - 1
            ==> shapes.drop_last()[j] == #[trigger] shapes[j]);
        lemma_topmost_body_witness(shapes.drop_last(), x, y, k);
    }
}

/// No shape's body contains the point: the scan misses.
proof fn lemma_topmost_body_miss(shapes: Seq<DrawingShape>, x: int, y: int)
    requires
        forall|j: int| 0 <= j < shapes.len() ==> !(#[trigger] shapes[j]).spec_contains(x, y),
    ensures topmost_body_hit(shapes, x, y) is None,
    decreases shapes.len(),
{
    if shapes.len() > 0 {
        assert(forall|j: int| 0 <= j < shapes.len() - 1
            ==> shapes.drop_last()[j] == #[trigger] shapes[j]);
        lemma_topmost_body_miss(shapes.drop_last(), x, y);
    }
}

/// Scans the shapes topmost-first for one with a resize handle at the
/// pointer, as the hit-testing priority demands.
pub(crate) fn top_shape_handle(shapes: &Vec<DrawingShape>, x: i64, y: i64)
    -> (r: Option<(usize, ResizeHandle)>)
    requires
        forall|i: int| 0 <= i < shapes@.len() ==> (#[trigger] shapes@[i]).wf(),
        in_range(x as int), in_range(y as int),
    ensures
        match r {
            Some(v) => v.0 < shapes@.len()
                && topmost_handle_hit(shapes@, x as int, y as int) == Some(v.0 as int)
                && shapes@[v.0 as int].spec_resize_handle_at(x as int, y as int) == Some(v.1),
            None => topmost_handle_hit(shapes@, x as int, y as int) is None,
        },
{
    let mut i: usize = shapes.len();
    while i > 0
        invariant
            i <= shapes@.len(),
            forall|i2: int| 0 <= i2 < shapes@.len() ==> (#[trigger] shapes@[i2]).wf(),
            in_range(x as int), in_range(y as int),
            forall|j: int| i <= j < shapes@.len()
                ==> (#[trigger] shapes@[j]).spec_resize_handle_at(x as int, y as int) is None,
        decreases i,
    {
        i = i - 1;
        if let Some(h) = shapes[i].get_resize_handle(x, y) {
            proof {
                lemma_topmost_handle_witness(shapes@, x as int, y as int, i as int);
            }
            return Some((i, h));
        }
    }
    proof {
        lemma_topmost_handle_miss(shapes@, x as int, y as int);
    }
    None
}

/// Scans the shapes topmost-first for one whose body contains the
/// pointer.
pub(crate) fn top_shape_at(shapes: &Vec<DrawingShape>, x: i64, y: i64) -> (r: Option<usize>)
    requires
        forall|i: int| 0 <= i < shapes@.len() ==> (#[trigger] shapes@[i]).wf(),
        in_range(x as int), in_range(y as int),
    ensures
        match r {
            Some(i) => i < shapes@.len()
                && topmost_body_hit(shapes@, x as int, y as int) == Some(i as int),
            None => topmost_body_hit(shapes@, x as int, y as int) is None,
        },
{
    let mut i: usize = shapes.len();
    while i > 0
        invariant
            i <= shapes@.len(),
            forall|i2: int| 0 <= i2 < shapes@.len() ==> (#[trigger] shapes@[i2]).wf(),
            in_range(x as int), in_range(y as int),
            forall|j: int| i <= j < shapes@.len()
                ==> !(#[trigger] shapes@[j]).spec_contains(x as int, y as int),
        decreases i,
    {
        i = i - 1;
        if shapes[i].contains_point(x, y) {
            proof {
                lemma_topmost_body_witness(shapes@, x as int, y as int, i as int);
            }
            return Some(i);
        }
    }
    proof {
        lemma_topmost_body_miss(shapes@, x as int, y as int);
    }
    None
}

/// `shape` is the zero-size shape of the active tool's kind started at
/// the pointer, with the default paint attributes.
pub open spec fn spec_new_shape(tool: DrawingTool, x: i64, y: i64, shape: DrawingShape) -> bool {
    match tool {
        DrawingTool::Rectangle => shape == (DrawingShape::Rectangle {
            start: (x, y), end: (x, y),
            color: default_color(), stroke_width: DEFAULT_STROKE_WIDTH,
        }),
        DrawingTool::Circle => shape == (DrawingShape::Circle {
            center: (x, y), radius: 0,
            color: default_color(), stroke_width: DEFAULT_STROKE_WIDTH,
        }),
        DrawingTool::Arrow => shape == (DrawingShape::Arrow {
            start: (x, y), end: (x, y),
            color: default_color(), stroke_width: DEFAULT_STROKE_WIDTH,
        }),
        DrawingTool::Brush => {
            shape matches DrawingShape::BrushStroke { points, color, stroke_width }
            && points@ =~= seq![(x, y)]
            && color == default_color()
            && stroke_width == DEFAULT_STROKE_WIDTH
        },
        DrawingTool::NoTool => false,
    }
}

/// The full pointer-down transition relation, in the hit-testing
/// priority order of the machine: with no selection a new one starts;
/// otherwise the toolbar is tried first, then the selection's resize
/// handles, then (inside the selection) the selected shape's handles,
/// any shape's handles topmost-first, any shape's body topmost-first,
/// and finally a new drawing or a selection drag depending on the
/// tool.  A click outside the selection is ignored.
pub open spec fn pointer_down_post(
    pre: Editor, post: Editor, x: i64, y: i64, r: SessionAction,
) -> bool {
    match pre.selection {
        Option::None => {
            &&& post.state matches AppState::Selecting { selection }
                && selection.start == (x, y) && selection.end == (x, y)
            &&& post.selection is None
            &&& post.tool == DrawingTool::NoTool
            &&& post.selected_shape is None
            &&& post.shapes@ == pre.shapes@
            &&& post.screen == pre.screen
            &&& r == SessionAction::KeepRunning
        },
        Option::Some(sel) => {
            let sw = pre.screen.0 as int;
            let sh = pre.screen.1 as int;
            let (sl, st, sr, sb) = sel.spec_bounds();
            let xi = x as int;
            let yi = y as int;
            let bi = crate::toolbar::spec_toolbar_button_at(sel, sw, sh, xi, yi);
            if bi is Some {
                &&& post.screen == pre.screen
                &&& post.shapes@ == pre.shapes@
                &&& post.selection == pre.selection
                &&& if bi == Some(4int) {
                    post.state is Idle
                        && post.tool == pre.tool
                        && post.selected_shape == pre.selected_shape
                        && r == SessionAction::Exit
                } else {
                    &&& post.state == pre.state
                    &&& post.selected_shape is None
                    &&& r == SessionAction::KeepRunning
                    &&& post.tool == (if bi == Some(0int) {
                        DrawingTool::Rectangle
                    } else if bi == Some(1int) {
                        DrawingTool::Circle
                    } else if bi == Some(2int) {
                        DrawingTool::Arrow
                    } else {
                        DrawingTool::Brush
                    })
                }
            } else if handle_at(xi, yi, sl, st, sr, sb) is Some {
                let h = handle_at(xi, yi, sl, st, sr, sb).unwrap();
                &&& post.state matches AppState::Resizing { handle, anchor }
                    && handle == h
                    && (anchor.0 as int, anchor.1 as int) == spec_resize_anchor(h, sel)
                &&& post.selection == pre.selection
                &&& post.tool == pre.tool
                &&& post.selected_shape == pre.selected_shape
                &&& post.shapes@ == pre.shapes@
                &&& post.screen == pre.screen
                &&& r == SessionAction::KeepRunning
            } else if spec_point_in_rect(xi, yi, sel) {
                let sel_handle = match pre.selected_shape {
                    Option::Some(idx) => pre.shapes@[idx as int].spec_resize_handle_at(xi, yi),
                    Option::None => Option::None,
                };
                let frame = post.selection == pre.selection
                    && post.tool == pre.tool
                    && post.shapes@ == pre.shapes@
                    && post.screen == pre.screen
                    && r == SessionAction::KeepRunning;
                if sel_handle is Some {
                    let idx = pre.selected_shape.unwrap() as int;
                    let h = sel_handle.unwrap();
                    &&& frame
                    &&& post.selected_shape == pre.selected_shape
                    &&& post.state matches AppState::ResizingShape { handle, anchor }
                        && handle == h
                        && (anchor.0 as int, anchor.1 as int)
                            == pre.shapes@[idx].spec_resize_anchor(h)
                } else if topmost_handle_hit(pre.shapes@, xi, yi) is Some {
                    let i = topmost_handle_hit(pre.shapes@, xi, yi).unwrap();
                    let h = pre.shapes@[i].spec_resize_handle_at(xi, yi).unwrap();
                    &&& frame
                    &&& post.selected_shape matches Some(k) && k as int == i
                    &&& post.state matches AppState::ResizingShape { handle, anchor }
                        && handle == h
                        && (anchor.0 as int, anchor.1 as int)
                            == pre.shapes@[i].spec_resize_anchor(h)
                } else if topmost_body_hit(pre.shapes@, xi, yi) is Some {
                    let i = topmost_body_hit(pre.shapes@, xi, yi).unwrap();
                    let (bl, bt, _br, _bb) = pre.shapes@[i].spec_bounds();
                    &&& frame
                    &&& post.selected_shape matches Some(k) && k as int == i
                    &&& post.state matches AppState::EditingShape { offset }
                        && offset.0 as int == xi - bl && offset.1 as int == yi - bt
                } else if pre.tool is NoTool {
                    &&& frame
                    &&& post.selected_shape == pre.selected_shape
                    &&& post.state matches AppState::Dragging { offset }
                        && offset.0 as int == xi - sl && offset.1 as int == yi - st
                } else {
                    &&& frame
                    &&& post.selected_shape == pre.selected_shape
                    &&& post.state matches AppState::Drawing { shape }
                        && spec_new_shape(pre.tool, x, y, shape)
                }
            } else {
                post == pre && r == SessionAction::KeepRunning
            }
        },
    }
}

/// Smaller of two values.
fn imin(a: i64, b: i64) -> (r: i64)
    ensures r as int == vstd::math::min(a as int, b as int),
{
    if a <= b { a } else { b }
}

/// Larger of two values.
fn imax(a: i64, b: i64) -> (r: i64)
    ensures r as int == vstd::math::max(a as int, b as int),
{
    if a >= b { a } else { b }
}

/// `v` clamped into `[lo, hi]`.
fn iclamp(v: i64, lo: i64, hi: i64) -> (r: i64)
    requires lo <= hi,
    ensures r as int == clamp(v as int, lo as int, hi as int), lo <= r <= hi,
{
    if v < lo { lo } else if v > hi { hi } else { v }
}

/// The two corners of the selection while `handle` is dragged to the
/// clamped pointer `(px, py)` with the recorded `anchor`: a corner
/// handle puts the pointer at the dragged corner and the anchor at the
/// other, an edge handle replaces only the perpendicular coordinate of
/// the dragged edge; the moving edge is kept a minimum size away from
/// the anchor.
pub open spec fn spec_resize_corners(
    handle: ResizeHandle, anchor: (int, int), bounds: (int, int, int, int), px: int, py: int,
) -> ((int, int), (int, int)) {
    let (l, t, r, b) = bounds;
    let (ax, ay) = anchor;
    let m = MIN_SELECTION_SIZE as int;
    match handle {
        ResizeHandle::TopLeft =>
            ((vstd::math::min(px, ax - m), vstd::math::min(py, ay - m)), (ax, ay)),
        ResizeHandle::TopRight =>
            ((ax, vstd::math::min(py, ay - m)), (vstd::math::max(px, ax + m), ay)),
        ResizeHandle::BottomRight =>
            ((ax, ay), (vstd::math::max(px, ax + m), vstd::math::max(py, ay + m))),
        ResizeHandle::BottomLeft =>
            ((vstd::math::min(px, ax - m), ay), (ax, vstd::math::max(py, ay + m))),
        ResizeHandle::Top => ((l, vstd::math::min(py, b - m)), (r, b)),
        ResizeHandle::Bottom => ((l, t), (r, vstd::math::max(py, t + m))),
        ResizeHandle::Left => ((vstd::math::min(px, r - m), t), (r, b)),
        ResizeHandle::Right => ((l, t), (vstd::math::max(px, l + m), b)),
    }
}

/// The prospective box for a shape resize: the box spanned per handle
/// by the clamped pointer, the anchor and the shape's current bounds,
/// normalized so left is at most right and top at most bottom, then
/// held to the minimum size by pushing the edge the handle controls
/// away from the opposite one.
pub open spec fn spec_shape_resize_box(
    handle: ResizeHandle, anchor: (int, int), p: (int, int), bounds: (int, int, int, int),
) -> (int, int, int, int) {
    let (l, t, r, b) = bounds;
    let (ax, ay) = anchor;
    let raw = match handle {
        ResizeHandle::TopLeft => (p.0, p.1, ax, ay),
        ResizeHandle::TopRight => (ax, p.1, p.0, ay),
        ResizeHandle::BottomRight => (ax, ay, p.0, p.1),
        ResizeHandle::BottomLeft => (p.0, ay, ax, p.1),
        ResizeHandle::Top => (l, p.1, r, ay),
        ResizeHandle::Bottom => (l, ay, r, p.1),
        ResizeHandle::Left => (p.0, t, ax, b),
        ResizeHandle::Right => (ax, t, p.0, b),
    };
    let nl = vstd::math::min(raw.0, raw.2);
    let nt = vstd::math::min(raw.1, raw.3);
    let nr = vstd::math::max(raw.0, raw.2);
    let nb = vstd::math::max(raw.1, raw.3);
    let m = MIN_SHAPE_SIZE as int;
    let horizontal = if nr - nl < m {
        if handle is Left || handle is TopLeft || handle is BottomLeft {
            (nr - m, nr)
        } else {
            (nl, nl + m)
        }
    } else {
        (nl, nr)
    };
    let vertical = if nb - nt < m {
        if handle is Top || handle is TopLeft || handle is TopRight {
            (nb - m, nb)
        } else {
            (nt, nt + m)
        }
    } else {
        (nt, nb)
    };
    (horizontal.0, vertical.0, horizontal.1, vertical.1)
}

/// The radius a circle being drawn gets: the distance from its center
/// to the pointer, rounded down, capped so the circle stays inside the
/// selection.
pub open spec fn circle_drawn_radius_ok(rad: int, distsq: int, maxr: int) -> bool {
    if maxr * maxr <= distsq {
        rad == maxr
    } else {
        rad * rad <= distsq < (rad + 1) * (rad + 1) && rad <= maxr
    }
}

/// The full pointer-move transition relation, dispatched purely on the
/// current mode.  Where a mode needs a committed selection or a
/// selected shape and there is none, the move does nothing.
pub open spec fn pointer_move_post(pre: Editor, post: Editor, x: i64, y: i64) -> bool {
    let xi = x as int;
    let yi = y as int;
    let sw = pre.screen.0 as int;
    let sh = pre.screen.1 as int;
    let frame = post.screen == pre.screen && post.tool == pre.tool
        && post.selected_shape == pre.selected_shape;
    match pre.state {
        AppState::Idle => post == pre,
        AppState::Selecting { selection } => {
            &&& frame
            &&& post.state matches AppState::Selecting { selection: s2 }
                && s2.start == selection.start && s2.end == (x, y)
            &&& post.selection == pre.selection
            &&& post.shapes@ == pre.shapes@
        },
        AppState::Dragging { offset } => match pre.selection {
            Option::Some(sel) => {
                let (l, t, r, b) = sel.spec_bounds();
                let w = r - l;
                let h = b - t;
                let left = spec_constrained_pos(xi - offset.0, w, sw);
                let top = spec_constrained_pos(yi - offset.1, h, sh);
                &&& frame
                &&& post.state == pre.state
                &&& post.shapes@ == pre.shapes@
                &&& post.selection matches Some(s2)
                    && s2.start.0 as int == left && s2.start.1 as int == top
                    && s2.end.0 as int == left + w && s2.end.1 as int == top + h
            },
            Option::None => post == pre,
        },
        AppState::Resizing { handle, anchor } => match pre.selection {
            Option::Some(sel) => {
                let px = clamp(xi, 0, sw);
                let py = clamp(yi, 0, sh);
                let (ns, ne) = spec_resize_corners(
                    handle, (anchor.0 as int, anchor.1 as int), sel.spec_bounds(), px, py);
                let l0 = vstd::math::min(ns.0, ne.0);
                let t0 = vstd::math::min(ns.1, ne.1);
                let w = vstd::math::max(ns.0, ne.0) - l0;
                let h = vstd::math::max(ns.1, ne.1) - t0;
                let left = spec_constrained_pos(l0, w, sw);
                let top = spec_constrained_pos(t0, h, sh);
                &&& frame
                &&& post.state == pre.state
                &&& post.shapes@ == pre.shapes@
                &&& post.selection matches Some(s2)
                    && s2.start.0 as int == left && s2.start.1 as int == top
                    && s2.end.0 as int == left + w && s2.end.1 as int == top + h
            },
            Option::None => post == pre,
        },
        AppState::Drawing { shape } => match pre.selection {
            Option::Some(sel) => {
                let (sl, st, sr, sb) = sel.spec_bounds();
                let cpx = clamp(xi, sl, sr);
                let cpy = clamp(yi, st, sb);
                &&& frame
                &&& post.selection == pre.selection
                &&& post.shapes@ == pre.shapes@
                &&& post.state matches AppState::Drawing { shape: s2 } && match shape {
                    DrawingShape::Rectangle { start, end, color, stroke_width } =>
                        s2 == (DrawingShape::Rectangle {
                            start, end: (cpx as i64, cpy as i64), color, stroke_width,
                        }),
                    DrawingShape::Arrow { start, end, color, stroke_width } =>
                        s2 == (DrawingShape::Arrow {
                            start, end: (cpx as i64, cpy as i64), color, stroke_width,
                        }),
                    DrawingShape::Circle { center, radius, color, stroke_width } => {
                        let dx = cpx - center.0 as int;
                        let dy = cpy - center.1 as int;
                        let maxr = vstd::math::min(
                            vstd::math::min(center.0 - sl, sr - center.0),
                            vstd::math::min(center.1 - st, sb - center.1));
                        s2 matches DrawingShape::Circle {
                            center: c2, radius: r2, color: col2, stroke_width: w2,
                        } && c2 == center && col2 == color && w2 == stroke_width
                            && circle_drawn_radius_ok(r2 as int, dx * dx + dy * dy, maxr)
                    },
                    DrawingShape::BrushStroke { .. } => {
                        if spec_point_in_rect(xi, yi, sel) {
                            s2 is BrushStroke
                                && s2.spec_color() == shape.spec_color()
                                && s2.spec_stroke_width() == shape.spec_stroke_width()
                                && crate::shapes::brush_extended(
                                    shape.spec_points(), s2.spec_points(), x, y)
                        } else {
                            s2 == shape
                        }
                    },
                }
            },
            Option::None => post == pre,
        },
        AppState::ResizingShape { handle, anchor } => {
            if pre.selected_shape is Some && pre.selection is Some {
                let idx = pre.selected_shape.unwrap() as int;
                let sel = pre.selection.unwrap();
                let (sl, st, sr, sb) = sel.spec_bounds();
                let p = (clamp(xi, sl, sr), clamp(yi, st, sb));
                let nb = spec_shape_resize_box(
                    handle, (anchor.0 as int, anchor.1 as int), p,
                    pre.shapes@[idx].spec_bounds());
                &&& frame
                &&& post.state == pre.state
                &&& post.selection == pre.selection
                &&& post.shapes@.len() == pre.shapes@.len()
                &&& crate::shapes::resized_to(
                    pre.shapes@[idx], post.shapes@[idx], nb, (sl, st, sr, sb))
                &&& post.shapes@[idx].is_same_kind(pre.shapes@[idx])
                &&& post.shapes@[idx].spec_color() == pre.shapes@[idx].spec_color()
                &&& post.shapes@[idx].spec_stroke_width() == pre.shapes@[idx].spec_stroke_width()
                &&& forall|j: int| 0 <= j < pre.shapes@.len() && j != idx
                    ==> post.shapes@[j] == pre.shapes@[j]
            } else {
                post == pre
            }
        },
        AppState::EditingShape { offset } => {
            if pre.selected_shape is Some && pre.selection is Some {
                let idx = pre.selected_shape.unwrap() as int;
                let sel = pre.selection.unwrap();
                let shape = pre.shapes@[idx];
                let (l, t, r, b) = shape.spec_bounds();
                let dx1 = (xi - offset.0 as int) - l;
                let dy1 = (yi - offset.1 as int) - t;
                let (sl, st, sr, sb) = sel.spec_bounds();
                let dx2 = if l + dx1 < sl { sl - (l + dx1) }
                    else if r + dx1 > sr { sr - (r + dx1) } else { 0 };
                let dy2 = if t + dy1 < st { st - (t + dy1) }
                    else if b + dy1 > sb { sb - (b + dy1) } else { 0 };
                let dx = dx1 + dx2;
                let dy = dy1 + dy2;
                &&& frame
                &&& post.state == pre.state
                &&& post.selection == pre.selection
                &&& post.shapes@.len() == pre.shapes@.len()
                &&& post.shapes@[idx].is_same_kind(shape)
                &&& post.shapes@[idx].spec_color() == shape.spec_color()
                &&& post.shapes@[idx].spec_stroke_width() == shape.spec_stroke_width()
                &&& post.shapes@[idx].spec_radius() == shape.spec_radius()
                &&& post.shapes@[idx].spec_points().len() == shape.spec_points().len()
                &&& forall|i: int| 0 <= i < shape.spec_points().len()
                    ==> (#[trigger] post.shapes@[idx].spec_points()[i]).0 as int
                            == shape.spec_points()[i].0 as int + dx
                        && post.shapes@[idx].spec_points()[i].1 as int
                            == shape.spec_points()[i].1 as int + dy
                &&& post.shapes@[idx].spec_bounds() == (l + dx, t + dy, r + dx, b + dy)
                &&& forall|j: int| 0 <= j < pre.shapes@.len() && j != idx
                    ==> post.shapes@[j] == pre.shapes@[j]
            } else {
                post == pre
            }
        },
    }
}

/// The selection after a drag to the pointer: its left/top follows
/// the pointer minus the grab offset, its size is unchanged, and it is
/// clamped back onto the screen.
fn dragged_selection(sel: &Selection, offset: (i64, i64), x: i64, y: i64, screen: (u32, u32))
    -> (r: Selection)
    requires
        sel_on_screen(*sel, screen.0 as int, screen.1 as int),
        screen.0 as int <= MAX_DIM, screen.1 as int <= MAX_DIM,
        -4 * COORD_LIMIT <= offset.0 as int <= 4 * COORD_LIMIT,
        -4 * COORD_LIMIT <= offset.1 as int <= 4 * COORD_LIMIT,
        0 <= x as int <= screen.0 as int,
        0 <= y as int <= screen.1 as int,
    ensures
        ({
            let (l, t, r0, b) = sel.spec_bounds();
            let w = r0 - l;
            let h = b - t;
            let left = spec_constrained_pos(x as int - offset.0 as int, w, screen.0 as int);
            let top = spec_constrained_pos(y as int - offset.1 as int, h, screen.1 as int);
            r.start.0 as int == left && r.start.1 as int == top
                && r.end.0 as int == left + w && r.end.1 as int == top + h
        }),
        sel_on_screen(r, screen.0 as int, screen.1 as int),
{
    let (w, h) = sel.size();
    let moved = Selection {
        start: (x - offset.0, y - offset.1),
        end: (x - offset.0 + w, y - offset.1 + h),
    };
    constrain_to_screen(moved, screen)
}

/// The selection after its `handle` is dragged to the pointer: the
/// pointer is clamped onto the screen, the corners follow
/// `spec_resize_corners` with the recorded anchor and a minimum size,
/// and the result is clamped back onto the screen.
fn resized_selection(
    handle: ResizeHandle, anchor: (i64, i64), sel: &Selection, x: i64, y: i64,
    screen: (u32, u32),
) -> (r: Selection)
    requires
        sel_on_screen(*sel, screen.0 as int, screen.1 as int),
        MIN_SELECTION_SIZE <= screen.0 as int <= MAX_DIM,
        MIN_SELECTION_SIZE <= screen.1 as int <= MAX_DIM,
        0 <= anchor.0 as int <= screen.0 as int,
        0 <= anchor.1 as int <= screen.1 as int,
    ensures
        ({
            let sw = screen.0 as int;
            let sh = screen.1 as int;
            let px = clamp(x as int, 0, sw);
            let py = clamp(y as int, 0, sh);
            let (ns, ne) = spec_resize_corners(
                handle, (anchor.0 as int, anchor.1 as int), sel.spec_bounds(), px, py);
            let l0 = vstd::math::min(ns.0, ne.0);
            let t0 = vstd::math::min(ns.1, ne.1);
            let w = vstd::math::max(ns.0, ne.0) - l0;
            let h = vstd::math::max(ns.1, ne.1) - t0;
            let left = spec_constrained_pos(l0, w, sw);
            let top = spec_constrained_pos(t0, h, sh);
            r.start.0 as int == left && r.start.1 as int == top
                && r.end.0 as int == left + w && r.end.1 as int == top + h
        }),
        sel_on_screen(r, screen.0 as int, screen.1 as int),
{
    let sw = screen.0 as i64;
    let sh = screen.1 as i64;
    let px = iclamp(x, 0, sw);
    let py = iclamp(y, 0, sh);
    let (l, t, r0, b) = sel.bounds();
    let m = MIN_SELECTION_SIZE;
    let resized = match handle {
        ResizeHandle::TopLeft => Selection {
            start: (imin(px, anchor.0 - m), imin(py, anchor.1 - m)),
            end: anchor,
        },
        ResizeHandle::TopRight => Selection {
            start: (anchor.0, imin(py, anchor.1 - m)),
            end: (imax(px, anchor.0 + m), anchor.1),
        },
        ResizeHandle::BottomRight => Selection {
            start: anchor,
            end: (imax(px, anchor.0 + m), imax(py, anchor.1 + m)),
        },
        ResizeHandle::BottomLeft => Selection {
            start: (imin(px, anchor.0 - m), anchor.1),
            end: (anchor.0, imax(py, anchor.1 + m)),
        },
        ResizeHandle::Top => Selection {
            start: (l, imin(py, b - m)),
            end: (r0, b),
        },
        ResizeHandle::Bottom => Selection {
            start: (l, t),
            end: (r0, imax(py, t + m)),
        },
        ResizeHandle::Left => Selection {
            start: (imin(px, r0 - m), t),
            end: (r0, b),
        },
        ResizeHandle::Right => Selection {
            start: (l, t),
            end: (imax(px, l + m), b),
        },
    };
    constrain_to_screen(resized, screen)
}

/// Extends the shape being drawn toward the pointer, clamped into the
/// selection: rectangles and arrows move their free endpoint, a circle
/// recomputes its radius from the center-to-pointer distance capped to
/// stay inside the selection, and a brush stroke records the raw
/// pointer only while it is inside the selection.
fn extend_drawing(shape: &mut DrawingShape, sel: &Selection, x: i64, y: i64)
    requires
        old(shape).wf(),
        shape_within(*old(shape), sel.spec_bounds()),
        sel.wf(),
        in_range(x as int), in_range(y as int),
    ensures
        final(shape).wf(),
        shape_within(*final(shape), sel.spec_bounds()),
        ({
            let (sl, st, sr, sb) = sel.spec_bounds();
            let cpx = clamp(x as int, sl, sr);
            let cpy = clamp(y as int, st, sb);
            match *old(shape) {
                DrawingShape::Rectangle { start, end, color, stroke_width } =>
                    *final(shape) == (DrawingShape::Rectangle {
                        start, end: (cpx as i64, cpy as i64), color, stroke_width,
                    }),
                DrawingShape::Arrow { start, end, color, stroke_width } =>
                    *final(shape) == (DrawingShape::Arrow {
                        start, end: (cpx as i64, cpy as i64), color, stroke_width,
                    }),
                DrawingShape::Circle { center, radius, color, stroke_width } => {
                    let dx = cpx - center.0 as int;
                    let dy = cpy - center.1 as int;
                    let maxr = vstd::math::min(
                        vstd::math::min(center.0 - sl, sr - center.0),
                        vstd::math::min(center.1 - st, sb - center.1));
                    (*final(shape)) matches DrawingShape::Circle {
                        center: c2, radius: r2, color: col2, stroke_width: w2,
                    } && c2 == center && col2 == color && w2 == stroke_width
                        && circle_drawn_radius_ok(r2 as int, dx * dx + dy * dy, maxr)
                },
                DrawingShape::BrushStroke { .. } => {
                    if spec_point_in_rect(x as int, y as int, *sel) {
                        (*final(shape)) is BrushStroke
                            && final(shape).spec_color() == old(shape).spec_color()
                            && final(shape).spec_stroke_width() == old(shape).spec_stroke_width()
                            && crate::shapes::brush_extended(
                                old(shape).spec_points(), final(shape).spec_points(), x, y)
                    } else {
                        *final(shape) == *old(shape)
                    }
                },
            }
        }),
{
    let (sl, st, sr, sb) = sel.bounds();
    let cpx = iclamp(x, sl, sr);
    let cpy = iclamp(y, st, sb);
    match shape {
        DrawingShape::Rectangle { end, .. } => {
            *end = (cpx, cpy);
        }
        DrawingShape::Arrow { end, .. } => {
            *end = (cpx, cpy);
        }
        DrawingShape::Circle { center, radius, .. } => {
            let dx = cpx - center.0;
            let dy = cpy - center.1;
            proof {
                assert(0 <= dx * dx <= 16_000_000_000_000) by (nonlinear_arith)
                    requires -4_000_000 <= dx <= 4_000_000,
                ;
                assert(0 <= dy * dy <= 16_000_000_000_000) by (nonlinear_arith)
                    requires -4_000_000 <= dy <= 4_000_000,
                ;
            }
            let distsq = dx * dx + dy * dy;
            let d = isqrt(distsq);
            let maxr = imin(
                imin(center.0 - sl, sr - center.0),
                imin(center.1 - st, sb - center.1),
            );
            let rad = imin(d, maxr);
            proof {
                assert(maxr <= d ==> maxr * maxr <= d * d) by (nonlinear_arith)
                    requires 0 <= maxr,
                ;
                assert(d < maxr ==> distsq < maxr * maxr) by (nonlinear_arith)
                    requires
                        0 <= d,
                        distsq < (d + 1) * (d + 1),
                        d < maxr ==> d + 1 <= maxr,
                ;
            }
            *radius = rad;
        }
        DrawingShape::BrushStroke { .. } => {
            if point_in_rect(x, y, sel) {
                shape.add_brush_point(x, y);
                proof {
                    let pre = old(shape).spec_points();
                    let cur = shape.spec_points();
                    let sbx = sel.spec_bounds();
                    let p = pre.last();
                    let dxq = x as int - p.0 as int;
                    let dyq = y as int - p.1 as int;
                    assert forall|i: int| 0 <= i < cur.len() implies
                        sbx.0 <= (#[trigger] cur[i]).0 as int <= sbx.2
                            && sbx.1 <= cur[i].1 as int <= sbx.3 by {
                        if dxq * dxq + dyq * dyq
                            < (MIN_BRUSH_POINT_DIST * MIN_BRUSH_POINT_DIST) as int {
                            assert(cur[i] == pre[i]);
                        } else if pre.len() < MAX_BRUSH_POINTS {
                            if i < pre.len() {
                                assert(cur[i] == pre[i]);
                            } else {
                                assert(cur[i] == (x, y));
                            }
                        } else {
                            if i < cur.len() - 1 {
                                assert(cur[i] == pre[i + BRUSH_TRIM_BLOCK]);
                            } else {
                                assert(cur[i] == (x, y));
                            }
                        }
                    }
                }
            }
        }
    }
}

/// The prospective shape box for the dragged handle, as the executable
/// counterpart of `spec_shape_resize_box`.
fn shape_resize_box(
    handle: ResizeHandle, anchor: (i64, i64), p: (i64, i64), bounds: (i64, i64, i64, i64),
) -> (r: (i64, i64, i64, i64))
    requires
        -4 * COORD_LIMIT <= anchor.0 as int <= 4 * COORD_LIMIT,
        -4 * COORD_LIMIT <= anchor.1 as int <= 4 * COORD_LIMIT,
        in_range(p.0 as int), in_range(p.1 as int),
        -4 * COORD_LIMIT <= bounds.0 as int <= 4 * COORD_LIMIT,
        -4 * COORD_LIMIT <= bounds.1 as int <= 4 * COORD_LIMIT,
        -4 * COORD_LIMIT <= bounds.2 as int <= 4 * COORD_LIMIT,
        -4 * COORD_LIMIT <= bounds.3 as int <= 4 * COORD_LIMIT,
    ensures
        ({
            let e = spec_shape_resize_box(
                handle, (anchor.0 as int, anchor.1 as int), (p.0 as int, p.1 as int),
                (bounds.0 as int, bounds.1 as int, bounds.2 as int, bounds.3 as int));
            (r.0 as int, r.1 as int, r.2 as int, r.3 as int) == e
        }),
        -8 * COORD_LIMIT <= r.0 as int <= 8 * COORD_LIMIT,
        -8 * COORD_LIMIT <= r.1 as int <= 8 * COORD_LIMIT,
        -8 * COORD_LIMIT <= r.2 as int <= 8 * COORD_LIMIT,
        -8 * COORD_LIMIT <= r.3 as int <= 8 * COORD_LIMIT,
{
    let (l, t, r0, b) = bounds;
    let raw = match handle {
        ResizeHandle::TopLeft => (p.0, p.1, anchor.0, anchor.1),
        ResizeHandle::TopRight => (anchor.0, p.1, p.0, anchor.1),
        ResizeHandle::BottomRight => (anchor.0, anchor.1, p.0, p.1),
        ResizeHandle::BottomLeft => (p.0, anchor.1, anchor.0, p.1),
        ResizeHandle::Top => (l, p.1, r0, anchor.1),
        ResizeHandle::Bottom => (l, anchor.1, r0, p.1),
        ResizeHandle::Left => (p.0, t, anchor.0, b),
        ResizeHandle::Right => (anchor.0, t, p.0, b),
    };
    let nl = imin(raw.0, raw.2);
    let nt = imin(raw.1, raw.3);
    let nr = imax(raw.0, raw.2);
    let nb = imax(raw.1, raw.3);
    let m = MIN_SHAPE_SIZE;
    let from_left = handle == ResizeHandle::Left
        || handle == ResizeHandle::TopLeft
        || handle == ResizeHandle::BottomLeft;
    let (fl, fr) = if nr - nl < m {
        if from_left { (nr - m, nr) } else { (nl, nl + m) }
    } else {
        (nl, nr)
    };
    let from_top = handle == ResizeHandle::Top
        || handle == ResizeHandle::TopLeft
        || handle == ResizeHandle::TopRight;
    let (ft, fb) = if nb - nt < m {
        if from_top { (nb - m, nb) } else { (nt, nt + m) }
    } else {
        (nt, nb)
    };
    (fl, ft, fr, fb)
}

impl Editor {
    /// Pointer moved.  Dispatches purely on the current mode: grows the
    /// selection being dragged out, moves or resizes the committed
    /// selection, extends the shape being drawn, or moves or resizes
    /// the selected shape, as `pointer_move_post` describes.
    #[verifier::rlimit(100)]
    pub fn pointer_move(&mut self, x: i64, y: i64)
        requires
            old(self).wf(),
            0 <= x as int <= old(self).screen.0 as int,
            0 <= y as int <= old(self).screen.1 as int,
        ensures
            final(self).wf(),
            pointer_move_post(*old(self), *final(self), x, y),
    {
        let mut st = AppState::Idle;
        core::mem::swap(&mut st, &mut self.state);
        match st {
            AppState::Idle => {
                self.state = AppState::Idle;
            }
            AppState::Selecting { selection } => {
                self.state = AppState::Selecting {
                    selection: Selection { start: selection.start, end: (x, y) },
                };
            }
            AppState::Dragging { offset } => {
                if let Some(sel) = self.selection {
                    self.selection = Some(dragged_selection(&sel, offset, x, y, self.screen));
                }
                self.state = AppState::Dragging { offset };
            }
            AppState::Resizing { handle, anchor } => {
                if let Some(sel) = self.selection {
                    self.selection =
                        Some(resized_selection(handle, anchor, &sel, x, y, self.screen));
                }
                self.state = AppState::Resizing { handle, anchor };
            }
            AppState::Drawing { mut shape } => {
                if let Some(sel) = self.selection {
                    extend_drawing(&mut shape, &sel, x, y);
                }
                self.state = AppState::Drawing { shape };
            }
            AppState::ResizingShape { handle, anchor } => {
                if self.selected_shape.is_some() && self.selection.is_some() {
                    let idx = self.selected_shape.unwrap();
                    let sel = self.selection.unwrap();
                    let (sl, st, sr, sb) = sel.bounds();
                    let px = iclamp(x, sl, sr);
                    let py = iclamp(y, st, sb);
                    let current = self.shapes[idx].bounds();
                    let nb = shape_resize_box(handle, anchor, (px, py), current);
                    self.shapes[idx].resize_constrained(nb, (sl, st, sr, sb));
                }
                self.state = AppState::ResizingShape { handle, anchor };
            }
            AppState::EditingShape { offset } => {
                if self.selected_shape.is_some() && self.selection.is_some() {
                    let idx = self.selected_shape.unwrap();
                    let sel = self.selection.unwrap();
                    let (l, t, _, _) = self.shapes[idx].bounds();
                    let dx = (x - offset.0) - l;
                    let dy = (y - offset.1) - t;
                    proof {
                        lemma_points_envelope(self.shapes@[idx as int]);
                        lemma_envelope(self.shapes@[idx as int].spec_points());
                    }
                    self.shapes[idx].translate(dx, dy);
                    let (sl, st, sr, sb) = sel.bounds();
                    self.shapes[idx].constrain_to_selection((sl, st, sr, sb));
                }
                self.state = AppState::EditingShape { offset };
            }
        }
    }

    /// Pointer pressed.  A secondary-button click ends the session; a
    /// primary-button click is interpreted against the hit-testing
    /// priority described by `pointer_down_post`.
    #[verifier::rlimit(100)]
    pub fn pointer_down(&mut self, x: i64, y: i64, button: PointerButton) -> (r: SessionAction)
        requires
            old(self).wf(),
            0 <= x as int <= old(self).screen.0 as int,
            0 <= y as int <= old(self).screen.1 as int,
        ensures
            final(self).wf(),
            button is Secondary ==> *final(self) == *old(self) && r == SessionAction::Exit,
            button is Primary ==> pointer_down_post(*old(self), *final(self), x, y, r),
    {
        if let PointerButton::Secondary = button {
            return SessionAction::Exit;
        }

        let current = self.selection;
        let sel = match current {
            Option::None => {
                self.state = AppState::Selecting {
                    selection: Selection { start: (x, y), end: (x, y) },
                };
                self.selection = None;
                self.tool = DrawingTool::NoTool;
                self.selected_shape = None;
                return SessionAction::KeepRunning;
            }
            Option::Some(sel) => sel,
        };

        let toolbar = Toolbar::calculate(&sel, self.screen);
        if let Some(button_index) = toolbar.get_button_index(x, y) {
            if button_index == 0 {
                self.tool = DrawingTool::Rectangle;
                self.selected_shape = None;
            } else if button_index == 1 {
                self.tool = DrawingTool::Circle;
                self.selected_shape = None;
            } else if button_index == 2 {
                self.tool = DrawingTool::Arrow;
                self.selected_shape = None;
            } else if button_index == 3 {
                self.tool = DrawingTool::Brush;
                self.selected_shape = None;
            } else {
                self.state = AppState::Idle;
                return SessionAction::Exit;
            }
            return SessionAction::KeepRunning;
        }

        if let Some(handle) = get_resize_handle(x, y, &sel) {
            let anchor = get_resize_anchor(handle, &sel);
            self.state = AppState::Resizing { handle, anchor };
            return SessionAction::KeepRunning;
        }

        if !point_in_rect(x, y, &sel) {
            return SessionAction::KeepRunning;
        }

        if let Some(idx) = self.selected_shape {
            if let Some(h) = self.shapes[idx].get_resize_handle(x, y) {
                let anchor = self.shapes[idx].get_resize_anchor(h);
                self.state = AppState::ResizingShape { handle: h, anchor };
                return SessionAction::KeepRunning;
            }
        }

        if let Some((i, h)) = top_shape_handle(&self.shapes, x, y) {
            let anchor = self.shapes[i].get_resize_anchor(h);
            self.selected_shape = Some(i);
            self.state = AppState::ResizingShape { handle: h, anchor };
            return SessionAction::KeepRunning;
        }

        if let Some(i) = top_shape_at(&self.shapes, x, y) {
            let (bl, bt, _, _) = self.shapes[i].bounds();
            self.selected_shape = Some(i);
            self.state = AppState::EditingShape { offset: (x - bl, y - bt) };
            return SessionAction::KeepRunning;
        }

        if let DrawingTool::NoTool = self.tool {
            let (sl0, st0, _, _) = sel.bounds();
            self.state = AppState::Dragging { offset: (x - sl0, y - st0) };
            return SessionAction::KeepRunning;
        }

        let shape = match self.tool {
            DrawingTool::Rectangle => DrawingShape::Rectangle {
                start: (x, y), end: (x, y),
                color: Rgb { r: 255, g: 0, b: 0 }, stroke_width: DEFAULT_STROKE_WIDTH,
            },
            DrawingTool::Circle => DrawingShape::Circle {
                center: (x, y), radius: 0,
                color: Rgb { r: 255, g: 0, b: 0 }, stroke_width: DEFAULT_STROKE_WIDTH,
            },
            DrawingTool::Arrow => DrawingShape::Arrow {
                start: (x, y), end: (x, y),
                color: Rgb { r: 255, g: 0, b: 0 }, stroke_width: DEFAULT_STROKE_WIDTH,
            },
            _ => {
                let mut points: Vec<(i64, i64)> = Vec::new();
                points.push((x, y));
                DrawingShape::BrushStroke {
                    points,
                    color: Rgb { r: 255, g: 0, b: 0 }, stroke_width: DEFAULT_STROKE_WIDTH,
                }
            }
        };
        self.state = AppState::Drawing { shape };
        SessionAction::KeepRunning
    }
}

} // verus!
