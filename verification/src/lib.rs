//! Interactive geometry core for an on-screen region-selection and
//! annotation overlay.
//!
//! The user draws a rectangular selection over a captured screen image,
//! drags and resizes it by its handles, then draws annotation shapes
//! (rectangle, circle, arrow, freehand stroke) confined to the selection,
//! assisted by a floating toolbar.  This crate holds the parts with real
//! invariants: selection and shape geometry, resize-handle hit-testing,
//! adaptive toolbar layout, the pointer-event state machine, and the
//! cursor-feedback resolver that must agree with it.
//!
//! All coordinates are screen pixels, represented as `i64`.  Acquiring the
//! screen bitmap, painting, window management and input plumbing are
//! external collaborators: they hand this crate scaled pointer coordinates
//! and a screen size, and read back declarative geometry.

pub mod geom;
pub mod shapes;
pub mod toolbar;
pub mod editor;
pub mod cursor;

use vstd::prelude::*;

verus! {

/// Half-width of the square detection zone centered on a resize handle.
pub const HANDLE_DETECT_SIZE: i64 = 8;

/// Side length of a drawn resize handle square.
pub const HANDLE_SIZE: i64 = 6;

/// Width of one toolbar button.
pub const BUTTON_WIDTH: i64 = 40;

/// Height of one toolbar button (and of the toolbar).
pub const BUTTON_HEIGHT: i64 = 30;

/// Horizontal gap between adjacent toolbar buttons.
pub const BUTTON_SPACING: i64 = 5;

/// Number of toolbar buttons: four tools and a close button.
pub const TOTAL_BUTTONS: i64 = 5;

/// Minimum width and height a selection may be resized to.
pub const MIN_SELECTION_SIZE: i64 = 10;

/// Gap kept between the toolbar and the selection.
pub const TOOLBAR_MARGIN: i64 = 15;

/// Margin kept between the toolbar and the screen edges.
pub const SCREEN_MARGIN: i64 = 10;

/// Minimum width and height a shape may be resized to.
pub const MIN_SHAPE_SIZE: i64 = 10;

/// Smallest radius a circle may be resized to.
pub const MIN_CIRCLE_RADIUS: i64 = 5;

/// Hard cap on the number of recorded points in one brush stroke.
pub const MAX_BRUSH_POINTS: usize = 4096;

/// How many of the oldest points are dropped when a brush stroke
/// reaches the cap.
pub const BRUSH_TRIM_BLOCK: usize = 1024;

/// A pointer move closer than this to the last recorded brush point
/// records no new point.
pub const MIN_BRUSH_POINT_DIST: i64 = 2;

/// Largest screen dimension, in pixels, the library accepts.
pub const MAX_DIM: i64 = 1_000_000;

/// Largest magnitude of a selection or pointer coordinate.
///
/// Pointer positions live on the screen and selection corners stray at
/// most a clamping margin beyond it, so this bound is never reached in
/// practice; stating it keeps all the arithmetic below inside `i64`.
pub const COORD_LIMIT: i64 = 2_000_000;

/// Largest magnitude of a shape coordinate the arithmetic accepts.  A
/// shape is created inside the selection and moves by on-screen
/// pointer deltas, so even mid-drag, before it is clamped back to the
/// selection, its points stay within a few dozen screen widths.
pub const SHAPE_COORD_LIMIT: i64 = 32_000_000;

/// A selection or pointer coordinate the library's arithmetic can
/// handle safely.
pub open spec fn in_range(v: int) -> bool {
    -COORD_LIMIT <= v <= COORD_LIMIT
}

/// Both components of a point are in range.
pub open spec fn point_in_range(p: (i64, i64)) -> bool {
    in_range(p.0 as int) && in_range(p.1 as int)
}

/// A shape coordinate the library's arithmetic can handle safely.
pub open spec fn shape_in_range(v: int) -> bool {
    -SHAPE_COORD_LIMIT <= v <= SHAPE_COORD_LIMIT
}

/// Both components of a shape point are in range.
pub open spec fn shape_point_in_range(p: (i64, i64)) -> bool {
    shape_in_range(p.0 as int) && shape_in_range(p.1 as int)
}

} // verus!
