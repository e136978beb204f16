//! Selection geometry: bounds normalization, resize-handle hit-testing,
//! resize anchors, and screen clamping.

use vstd::prelude::*;
use crate::{COORD_LIMIT, HANDLE_DETECT_SIZE, in_range, point_in_range};

verus! {

/// One of the eight positions on a bounding box from which a resize can
/// be started: four corners and four edge midpoints.
#[derive(Debug, Clone, Copy, PartialEq, Eq, Structural)]
pub enum ResizeHandle {
    TopLeft,
    Top,
    TopRight,
    Right,
    BottomRight,
    Bottom,
    BottomLeft,
    Left,
}

impl ResizeHandle {
    /// The four corner handles, as opposed to the four edge midpoints.
    pub open spec fn is_corner(self) -> bool {
        self is TopLeft || self is TopRight || self is BottomRight || self is BottomLeft
    }
}

/// The user-defined rectangular region of interest, stored as the two
/// corner points of the drag that created it, in either order.
#[derive(Debug, Clone, Copy)]
pub struct Selection {
    pub start: (i64, i64),
    pub end: (i64, i64),
}

/// Midpoint of a non-empty interval, rounding down.
pub open spec fn mid(lo: int, hi: int) -> int
    recommends lo <= hi
{
    lo + (hi - lo) / 2
}

/// `v` clamped into `[lo, hi]`.
pub open spec fn clamp(v: int, lo: int, hi: int) -> int
    recommends lo <= hi
{
    if v < lo { lo } else if v > hi { hi } else { v }
}

/// `p` lies within `HANDLE_DETECT_SIZE` of `c` on one axis.
pub open spec fn near(p: int, c: int) -> bool {
    -(HANDLE_DETECT_SIZE as int) <= p - c <= HANDLE_DETECT_SIZE as int
}

impl Selection {
    pub open spec fn wf(self) -> bool {
        point_in_range(self.start) && point_in_range(self.end)
    }

    /// Loose coordinate bound for intermediate selections, such as one
    /// being dragged before it is clamped back onto the screen.
    pub open spec fn roomy(self) -> bool {
        &&& -8 * COORD_LIMIT <= self.start.0 as int <= 8 * COORD_LIMIT
        &&& -8 * COORD_LIMIT <= self.start.1 as int <= 8 * COORD_LIMIT
        &&& -8 * COORD_LIMIT <= self.end.0 as int <= 8 * COORD_LIMIT
        &&& -8 * COORD_LIMIT <= self.end.1 as int <= 8 * COORD_LIMIT
    }

    /// Normalized box `(left, top, right, bottom)`: per-axis min and max
    /// of the two corners, independent of which corner is `start`.
    pub open spec fn spec_bounds(self) -> (int, int, int, int) {
        let left = if self.start.0 <= self.end.0 { self.start.0 } else { self.end.0 };
        let right = if self.start.0 <= self.end.0 { self.end.0 } else { self.start.0 };
        let top = if self.start.1 <= self.end.1 { self.start.1 } else { self.end.1 };
        let bottom = if self.start.1 <= self.end.1 { self.end.1 } else { self.start.1 };
        (left as int, top as int, right as int, bottom as int)
    }

    pub fn bounds(&self) -> (r: (i64, i64, i64, i64))
        ensures
            (r.0 as int, r.1 as int, r.2 as int, r.3 as int) == self.spec_bounds(),
            r.0 <= r.2 && r.1 <= r.3,
    {
        let left = if self.start.0 <= self.end.0 { self.start.0 } else { self.end.0 };
        let right = if self.start.0 <= self.end.0 { self.end.0 } else { self.start.0 };
        let top = if self.start.1 <= self.end.1 { self.start.1 } else { self.end.1 };
        let bottom = if self.start.1 <= self.end.1 { self.end.1 } else { self.start.1 };
        (left, top, right, bottom)
    }

    /// Center of the selection box, each axis rounding down.
    pub fn center(&self) -> (r: (i64, i64))
        requires self.roomy(),
        ensures
            r.0 as int == mid(self.spec_bounds().0, self.spec_bounds().2),
            r.1 as int == mid(self.spec_bounds().1, self.spec_bounds().3),
    {
        let (left, top, right, bottom) = self.bounds();
        (left + (right - left) / 2, top + (bottom - top) / 2)
    }

    /// Width and height of the selection box.
    pub fn size(&self) -> (r: (i64, i64))
        requires self.roomy(),
        ensures
            r.0 as int == self.spec_bounds().2 - self.spec_bounds().0,
            r.1 as int == self.spec_bounds().3 - self.spec_bounds().1,
            r.0 >= 0 && r.1 >= 0,
    {
        let (left, top, right, bottom) = self.bounds();
        (right - left, bottom - top)
    }
}

/// Normalization is order-independent: swapping the two corners of a
/// selection leaves its bounds unchanged.
pub proof fn lemma_bounds_corner_order(a: (i64, i64), b: (i64, i64))
    ensures
        ((Selection { start: a, end: b }).spec_bounds()
            == (Selection { start: b, end: a }).spec_bounds()),
{
}

/// The handle whose detection zone contains `(x, y)` on the box
/// `(left, top, right, bottom)`, with all eight handles active.
///
/// The four corners are tried first, in clockwise order from the top
/// left; an edge midpoint only matches when the point is outside the
/// detection zones of both adjacent corners along the edge's axis, so
/// a corner zone always beats an overlapping edge zone.
pub open spec fn handle_at(x: int, y: int, left: int, top: int, right: int, bottom: int)
    -> Option<ResizeHandle>
{
    let cx = mid(left, right);
    let cy = mid(top, bottom);
    if near(x, left) && near(y, top) {
        Some(ResizeHandle::TopLeft)
    } else if near(x, right) && near(y, top) {
        Some(ResizeHandle::TopRight)
    } else if near(x, right) && near(y, bottom) {
        Some(ResizeHandle::BottomRight)
    } else if near(x, left) && near(y, bottom) {
        Some(ResizeHandle::BottomLeft)
    } else if near(x, cx) && near(y, top) && !near(x, left) && !near(x, right) {
        Some(ResizeHandle::Top)
    } else if near(x, right) && near(y, cy) && !near(y, top) && !near(y, bottom) {
        Some(ResizeHandle::Right)
    } else if near(x, cx) && near(y, bottom) && !near(x, left) && !near(x, right) {
        Some(ResizeHandle::Bottom)
    } else if near(x, left) && near(y, cy) && !near(y, top) && !near(y, bottom) {
        Some(ResizeHandle::Left)
    } else {
        None
    }
}

/// Like `handle_at`, but with only the four corner handles active;
/// circles expose no edge-midpoint handles.
pub open spec fn corner_handle_at(x: int, y: int, left: int, top: int, right: int, bottom: int)
    -> Option<ResizeHandle>
{
    if near(x, left) && near(y, top) {
        Some(ResizeHandle::TopLeft)
    } else if near(x, right) && near(y, top) {
        Some(ResizeHandle::TopRight)
    } else if near(x, right) && near(y, bottom) {
        Some(ResizeHandle::BottomRight)
    } else if near(x, left) && near(y, bottom) {
        Some(ResizeHandle::BottomLeft)
    } else {
        None
    }
}

/// `(p, c)` are within the handle detection distance on one axis.
fn near_exec(p: i64, c: i64) -> (r: bool)
    requires
        -8 * COORD_LIMIT <= p as int <= 8 * COORD_LIMIT,
        -8 * COORD_LIMIT <= c as int <= 8 * COORD_LIMIT,
    ensures r == near(p as int, c as int),
{
    let d = p - c;
    -HANDLE_DETECT_SIZE <= d && d <= HANDLE_DETECT_SIZE
}

/// Inclusive containment of `(x, y)` in the selection's box.
pub open spec fn spec_point_in_rect(x: int, y: int, s: Selection) -> bool {
    let (left, top, right, bottom) = s.spec_bounds();
    left <= x <= right && top <= y <= bottom
}

pub fn point_in_rect(x: i64, y: i64, selection: &Selection) -> (r: bool)
    ensures r == spec_point_in_rect(x as int, y as int, *selection),
{
    let (left, top, right, bottom) = selection.bounds();
    x >= left && x <= right && y >= top && y <= bottom
}

/// The selection resize handle at `(x, y)`, if any, corners first.
pub fn get_resize_handle(x: i64, y: i64, selection: &Selection) -> (r: Option<ResizeHandle>)
    requires selection.roomy(), in_range(x as int), in_range(y as int),
    ensures ({
        let (left, top, right, bottom) = selection.spec_bounds();
        r == handle_at(x as int, y as int, left, top, right, bottom)
    }),
{
    let (left, top, right, bottom) = selection.bounds();
    let cx = left + (right - left) / 2;
    let cy = top + (bottom - top) / 2;

    if near_exec(x, left) && near_exec(y, top) {
        Some(ResizeHandle::TopLeft)
    } else if near_exec(x, right) && near_exec(y, top) {
        Some(ResizeHandle::TopRight)
    } else if near_exec(x, right) && near_exec(y, bottom) {
        Some(ResizeHandle::BottomRight)
    } else if near_exec(x, left) && near_exec(y, bottom) {
        Some(ResizeHandle::BottomLeft)
    } else if near_exec(x, cx) && near_exec(y, top) && !near_exec(x, left) && !near_exec(x, right) {
        Some(ResizeHandle::Top)
    } else if near_exec(x, right) && near_exec(y, cy) && !near_exec(y, top) && !near_exec(y, bottom) {
        Some(ResizeHandle::Right)
    } else if near_exec(x, cx) && near_exec(y, bottom) && !near_exec(x, left) && !near_exec(x, right) {
        Some(ResizeHandle::Bottom)
    } else if near_exec(x, left) && near_exec(y, cy) && !near_exec(y, top) && !near_exec(y, bottom) {
        Some(ResizeHandle::Left)
    } else {
        None
    }
}

/// A point exactly on a corner of the selection box is always resolved
/// to a corner handle, never to an edge-midpoint handle, even where a
/// midpoint's detection zone also contains it.
pub proof fn lemma_corner_point_gets_corner_handle(s: Selection, x: int, y: int)
    requires
        s.wf(),
        ({
            let (left, top, right, bottom) = s.spec_bounds();
            (x == left || x == right) && (y == top || y == bottom)
        }),
    ensures
        ({
            let (left, top, right, bottom) = s.spec_bounds();
            let r = handle_at(x, y, left, top, right, bottom);
            r is Some && r.unwrap().is_corner()
        }),
{
}

/// The point that stays fixed while the given selection handle is
/// dragged: the opposite corner for a corner handle, the midpoint of
/// the opposite edge for an edge handle.
pub open spec fn spec_resize_anchor(handle: ResizeHandle, s: Selection) -> (int, int) {
    let (left, top, right, bottom) = s.spec_bounds();
    let cx = mid(left, right);
    let cy = mid(top, bottom);
    match handle {
        ResizeHandle::TopLeft => (right, bottom),
        ResizeHandle::TopRight => (left, bottom),
        ResizeHandle::BottomRight => (left, top),
        ResizeHandle::BottomLeft => (right, top),
        ResizeHandle::Top => (cx, bottom),
        ResizeHandle::Bottom => (cx, top),
        ResizeHandle::Left => (right, cy),
        ResizeHandle::Right => (left, cy),
    }
}

pub fn get_resize_anchor(handle: ResizeHandle, selection: &Selection) -> (r: (i64, i64))
    requires selection.roomy(),
    ensures (r.0 as int, r.1 as int) == spec_resize_anchor(handle, *selection),
{
    let (left, top, right, bottom) = selection.bounds();
    let cx = left + (right - left) / 2;
    let cy = top + (bottom - top) / 2;
    match handle {
        ResizeHandle::TopLeft => (right, bottom),
        ResizeHandle::TopRight => (left, bottom),
        ResizeHandle::BottomRight => (left, top),
        ResizeHandle::BottomLeft => (right, top),
        ResizeHandle::Top => (cx, bottom),
        ResizeHandle::Bottom => (cx, top),
        ResizeHandle::Left => (right, cy),
        ResizeHandle::Right => (left, cy),
    }
}

/// Where `constrain_to_screen` puts the left/top coordinate: the
/// given position clamped to `0` from below, then to `dim - size`
/// from above, keeping the size unchanged.
pub open spec fn spec_constrained_pos(pos: int, size: int, dim: int) -> int {
    let at_least = if pos > 0 { pos } else { 0 };
    if at_least < dim - size { at_least } else { dim - size }
}

/// The corners `(left, top, right, bottom)` of a selection after it is
/// clamped onto the screen, size preserved.
pub open spec fn spec_constrain_to_screen(s: Selection, sw: int, sh: int)
    -> (int, int, int, int)
{
    let (l, t, r, b) = s.spec_bounds();
    let w = r - l;
    let h = b - t;
    let left = spec_constrained_pos(l, w, sw);
    let top = spec_constrained_pos(t, h, sh);
    (left, top, left + w, top + h)
}

/// Moves the selection so that it lies on the screen, preserving its
/// width and height.  When the selection fits on the screen, the result
/// satisfies `0 <= left` and `right <= screen width` (and the same
/// vertically); a selection larger than the screen is pushed to a
/// negative left/top so that its far edge meets the screen's.
pub fn constrain_to_screen(selection: Selection, screen_size: (u32, u32)) -> (r: Selection)
    requires
        selection.roomy(),
        screen_size.0 as int <= COORD_LIMIT,
        screen_size.1 as int <= COORD_LIMIT,
    ensures
        ({
            let (left, top, right, bottom) = spec_constrain_to_screen(
                selection, screen_size.0 as int, screen_size.1 as int);
            r.start.0 as int == left && r.start.1 as int == top
                && r.end.0 as int == right && r.end.1 as int == bottom
        }),
        ({
            let (l0, t0, r0, b0) = selection.spec_bounds();
            let w = r0 - l0;
            let h = b0 - t0;
            (w <= screen_size.0 as int ==> 0 <= r.start.0 as int
                && r.end.0 as int <= screen_size.0 as int)
            && (h <= screen_size.1 as int ==> 0 <= r.start.1 as int
                && r.end.1 as int <= screen_size.1 as int)
        }),
        ({
            let (l0, t0, r0, b0) = selection.spec_bounds();
            r.end.0 as int - r.start.0 as int == r0 - l0
                && r.end.1 as int - r.start.1 as int == b0 - t0
        }),
{
    let (width, height) = selection.size();
    let screen_w: i64 = screen_size.0 as i64;
    let screen_h: i64 = screen_size.1 as i64;

    let low_x = if selection.start.0 <= selection.end.0 { selection.start.0 } else { selection.end.0 };
    let low_y = if selection.start.1 <= selection.end.1 { selection.start.1 } else { selection.end.1 };

    let at_least_x = if low_x > 0 { low_x } else { 0 };
    let left = if at_least_x < screen_w - width { at_least_x } else { screen_w - width };
    let at_least_y = if low_y > 0 { low_y } else { 0 };
    let top = if at_least_y < screen_h - height { at_least_y } else { screen_h - height };

    Selection { start: (left, top), end: (left + width, top + height) }
}

/// The eight handle positions drawn on a box, clockwise from the
/// top-left corner: corners and edge midpoints interleaved.
pub open spec fn handle_ring(left: int, top: int, right: int, bottom: int) -> Seq<(int, int)> {
    let cx = mid(left, right);
    let cy = mid(top, bottom);
    seq![
        (left, top), (cx, top), (right, top), (right, cy),
        (right, bottom), (cx, bottom), (left, bottom), (left, cy),
    ]
}

/// The four corner handle positions of a box, clockwise from the
/// top-left corner.
pub open spec fn corner_ring(left: int, top: int, right: int, bottom: int) -> Seq<(int, int)> {
    seq![(left, top), (right, top), (right, bottom), (left, bottom)]
}

/// The positions of the eight selection resize handles, in the order
/// the renderer draws them.
pub fn selection_handle_points(selection: &Selection) -> (res: Vec<(i64, i64)>)
    requires selection.roomy(),
    ensures
        ({
            let (l, t, r, b) = selection.spec_bounds();
            let ring = handle_ring(l, t, r, b);
            res@.len() == ring.len()
            && forall|i: int| 0 <= i < ring.len()
                ==> ((#[trigger] res@[i]).0 as int, res@[i].1 as int) == ring[i]
        }),
{
    let (left, top, right, bottom) = selection.bounds();
    let cx = left + (right - left) / 2;
    let cy = top + (bottom - top) / 2;
    let mut res: Vec<(i64, i64)> = Vec::new();
    res.push((left, top));
    res.push((cx, top));
    res.push((right, top));
    res.push((right, cy));
    res.push((right, bottom));
    res.push((cx, bottom));
    res.push((left, bottom));
    res.push((left, cy));
    res
}

/// The part of a box that lies on a canvas of the given size, if any:
/// each edge clipped to the canvas, kept only when something with
/// positive area remains.  The renderer shows exactly this part of the
/// captured image inside the selection.
pub fn clip_box_to_canvas(bounds: (i64, i64, i64, i64), canvas: (u32, u32))
    -> (res: Option<(i64, i64, i64, i64)>)
    requires
        -8 * COORD_LIMIT <= bounds.0 as int <= 8 * COORD_LIMIT,
        -8 * COORD_LIMIT <= bounds.1 as int <= 8 * COORD_LIMIT,
        -8 * COORD_LIMIT <= bounds.2 as int <= 8 * COORD_LIMIT,
        -8 * COORD_LIMIT <= bounds.3 as int <= 8 * COORD_LIMIT,
        canvas.0 as int <= COORD_LIMIT,
        canvas.1 as int <= COORD_LIMIT,
    ensures
        ({
            let l = if (bounds.0 as int) > 0 { bounds.0 as int } else { 0 };
            let t = if (bounds.1 as int) > 0 { bounds.1 as int } else { 0 };
            let r = if (bounds.2 as int) < (canvas.0 as int) { bounds.2 as int } else { canvas.0 as int };
            let b = if (bounds.3 as int) < (canvas.1 as int) { bounds.3 as int } else { canvas.1 as int };
            match res {
                Some(c) => l < r && t < b
                    && (c.0 as int, c.1 as int, c.2 as int, c.3 as int) == (l, t, r, b),
                None => !(l < r && t < b),
            }
        }),
{
    let l = if bounds.0 > 0 { bounds.0 } else { 0 };
    let t = if bounds.1 > 0 { bounds.1 } else { 0 };
    let r = if bounds.2 < canvas.0 as i64 { bounds.2 } else { canvas.0 as i64 };
    let b = if bounds.3 < canvas.1 as i64 { bounds.3 } else { canvas.1 as i64 };
    if r > l && b > t {
        Some((l, t, r, b))
    } else {
        None
    }
}

/// Integer square root, rounding down, for values up to the largest
/// squared on-screen distance.
pub fn isqrt(n: i64) -> (r: i64)
    requires 0 <= n <= 100_000_000_000_000,
    ensures 0 <= r, r * r <= n, n < (r + 1) * (r + 1),
{
    let mut lo: i64 = 0;
    let mut hi: i64 = if n < 10_000_000 { n } else { 10_000_000 };
    proof {
        assert((n + 1) * (n + 1) > n) by (nonlinear_arith)
            requires 0 <= n,
        ;
        assert((10_000_001 as int) * (10_000_001 as int) > 100_000_000_000_000)
            by (nonlinear_arith);
    }
    while lo < hi
        invariant
            0 <= lo <= hi <= 10_000_000,
            lo * lo <= n,
            (hi + 1) * (hi + 1) > n,
        decreases hi - lo,
    {
        let step = (hi - lo + 1) / 2;
        let middle = lo + step;
        proof {
            assert(0 <= middle * middle <= 100_000_000_000_000) by (nonlinear_arith)
                requires 0 < middle <= 10_000_000,
            ;
        }
        if middle * middle <= n {
            lo = middle;
        } else {
            hi = middle - 1;
        }
    }
    lo
}

} // verus!
