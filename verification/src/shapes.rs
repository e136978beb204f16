//! Annotation shapes: per-shape bounds, point containment, translation,
//! resize-handle detection, constrained resize, and brush-stroke point
//! accumulation.

use vstd::prelude::*;
use vstd::math::{min, max};
use crate::geom::{ResizeHandle, handle_at, corner_handle_at, handle_ring, corner_ring, near, mid};
use crate::{
    COORD_LIMIT, SHAPE_COORD_LIMIT, MAX_BRUSH_POINTS, BRUSH_TRIM_BLOCK, MIN_BRUSH_POINT_DIST,
    MIN_SHAPE_SIZE, MIN_CIRCLE_RADIUS, HANDLE_DETECT_SIZE,
    in_range, shape_in_range, shape_point_in_range,
};

verus! {

/// A paint color, one byte per channel.
#[derive(Debug, Clone, Copy, PartialEq, Eq, Structural)]
pub struct Rgb {
    pub r: u8,
    pub g: u8,
    pub b: u8,
}

/// The kind of annotation the next drawn shape will be, or no tool.
#[derive(Debug, Clone, Copy, PartialEq, Eq, Structural)]
pub enum DrawingTool {
    NoTool,
    Rectangle,
    Circle,
    Arrow,
    Brush,
}

/// A persisted annotation object.  Every variant carries only geometry
/// and paint attributes; z-order is the position in the containing
/// sequence.
#[derive(Debug)]
pub enum DrawingShape {
    Rectangle {
        start: (i64, i64),
        end: (i64, i64),
        color: Rgb,
        stroke_width: i64,
    },
    Circle {
        center: (i64, i64),
        radius: i64,
        color: Rgb,
        stroke_width: i64,
    },
    Arrow {
        start: (i64, i64),
        end: (i64, i64),
        color: Rgb,
        stroke_width: i64,
    },
    BrushStroke {
        points: Vec<(i64, i64)>,
        color: Rgb,
        stroke_width: i64,
    },
}

/// Axis-aligned envelope `(left, top, right, bottom)` of a non-empty
/// point sequence.
pub open spec fn envelope(pts: Seq<(i64, i64)>) -> (int, int, int, int)
    recommends pts.len() >= 1,
    decreases pts.len(),
{
    if pts.len() <= 1 {
        (pts[0].0 as int, pts[0].1 as int, pts[0].0 as int, pts[0].1 as int)
    } else {
        let rest = envelope(pts.drop_last());
        let p = pts.last();
        (
            min(rest.0, p.0 as int),
            min(rest.1, p.1 as int),
            max(rest.2, p.0 as int),
            max(rest.3, p.1 as int),
        )
    }
}

/// Every point of a non-empty sequence lies inside its envelope, and
/// each envelope edge is attained by some point.
pub proof fn lemma_envelope(pts: Seq<(i64, i64)>)
    requires pts.len() >= 1,
    ensures
        ({
            let (l, t, r, b) = envelope(pts);
            &&& forall|i: int| 0 <= i < pts.len()
                ==> l <= (#[trigger] pts[i]).0 as int <= r && t <= pts[i].1 as int <= b
            &&& exists|i: int| 0 <= i < pts.len() && (#[trigger] pts[i]).0 as int == l
            &&& exists|i: int| 0 <= i < pts.len() && (#[trigger] pts[i]).1 as int == t
            &&& exists|i: int| 0 <= i < pts.len() && (#[trigger] pts[i]).0 as int == r
            &&& exists|i: int| 0 <= i < pts.len() && (#[trigger] pts[i]).1 as int == b
        }),
    decreases pts.len(),
{
    let (l, t, r, b) = envelope(pts);
    if pts.len() == 1 {
        assert(pts[0].0 as int == l && pts[0].1 as int == t);
        assert(pts[0].0 as int == r && pts[0].1 as int == b);
    } else {
        let q = pts.drop_last();
        lemma_envelope(q);
        let (l2, t2, r2, b2) = envelope(q);
        assert(forall|i: int| 0 <= i < q.len() ==> q[i] == #[trigger] pts[i]);
        let last = pts.len() - 1;
        assert(pts.last() == pts[last]);
        if l == pts[last].0 as int {
            assert(pts[last].0 as int == l);
        } else {
            let j = choose|i: int| 0 <= i < q.len() && (#[trigger] q[i]).0 as int == l2;
            assert(pts[j].0 as int == l);
        }
        if t == pts[last].1 as int {
            assert(pts[last].1 as int == t);
        } else {
            let j = choose|i: int| 0 <= i < q.len() && (#[trigger] q[i]).1 as int == t2;
            assert(pts[j].1 as int == t);
        }
        if r == pts[last].0 as int {
            assert(pts[last].0 as int == r);
        } else {
            let j = choose|i: int| 0 <= i < q.len() && (#[trigger] q[i]).0 as int == r2;
            assert(pts[j].0 as int == r);
        }
        if b == pts[last].1 as int {
            assert(pts[last].1 as int == b);
        } else {
            let j = choose|i: int| 0 <= i < q.len() && (#[trigger] q[i]).1 as int == b2;
            assert(pts[j].1 as int == b);
        }
    }
}

/// The envelope of a shape's defining points: the shape's bounds for
/// rectangles, arrows and brush strokes; the degenerate box at the
/// center for a circle, whose bounds extend a radius further.
pub proof fn lemma_points_envelope(s: DrawingShape)
    requires s.wf(),
    ensures
        ({
            let e = envelope(s.spec_points());
            match s {
                DrawingShape::Circle { center, .. } =>
                    e == (center.0 as int, center.1 as int, center.0 as int, center.1 as int),
                _ => e == s.spec_bounds(),
            }
        }),
{
    let pts = s.spec_points();
    if pts.len() == 2 {
        assert(pts.drop_last() =~= seq![pts[0]]);
        assert(envelope(pts.drop_last())
            == (pts[0].0 as int, pts[0].1 as int, pts[0].0 as int, pts[0].1 as int));
    }
}

/// Envelopes of pointwise-shifted sequences are shifted envelopes.
pub proof fn lemma_envelope_shift(a: Seq<(i64, i64)>, b: Seq<(i64, i64)>, dx: int, dy: int)
    requires
        a.len() == b.len(),
        a.len() >= 1,
        forall|i: int| 0 <= i < a.len()
            ==> #[trigger] b[i].0 as int == a[i].0 as int + dx && b[i].1 as int == a[i].1 as int + dy,
    ensures
        envelope(b).0 == envelope(a).0 + dx,
        envelope(b).1 == envelope(a).1 + dy,
        envelope(b).2 == envelope(a).2 + dx,
        envelope(b).3 == envelope(a).3 + dy,
    decreases a.len(),
{
    if a.len() > 1 {
        lemma_envelope_shift(a.drop_last(), b.drop_last(), dx, dy);
        assert(forall|i: int| 0 <= i < a.len() - 1 ==> #[trigger] a.drop_last()[i] == a[i]);
        assert(forall|i: int| 0 <= i < b.len() - 1 ==> #[trigger] b.drop_last()[i] == b[i]);
    }
}

impl DrawingShape {
    /// Geometric well-formedness: coordinates small enough for all the
    /// arithmetic below, a non-negative bounded radius, and a brush
    /// stroke that is non-empty and within the point cap.
    pub open spec fn wf(self) -> bool {
        match self {
            DrawingShape::Rectangle { start, end, .. } =>
                shape_point_in_range(start) && shape_point_in_range(end),
            DrawingShape::Circle { center, radius, .. } =>
                shape_point_in_range(center) && 0 <= radius as int <= COORD_LIMIT,
            DrawingShape::Arrow { start, end, .. } =>
                shape_point_in_range(start) && shape_point_in_range(end),
            DrawingShape::BrushStroke { points, .. } =>
                1 <= points@.len() <= MAX_BRUSH_POINTS
                && forall|i: int| 0 <= i < points@.len()
                    ==> shape_point_in_range(#[trigger] points@[i]),
        }
    }

    /// The two shapes are the same variant.
    pub open spec fn is_same_kind(self, other: DrawingShape) -> bool {
        match (self, other) {
            (DrawingShape::Rectangle { .. }, DrawingShape::Rectangle { .. }) => true,
            (DrawingShape::Circle { .. }, DrawingShape::Circle { .. }) => true,
            (DrawingShape::Arrow { .. }, DrawingShape::Arrow { .. }) => true,
            (DrawingShape::BrushStroke { .. }, DrawingShape::BrushStroke { .. }) => true,
            _ => false,
        }
    }

    /// The shape's defining points: the two endpoints for rectangles
    /// and arrows, the center for a circle, the recorded points for a
    /// brush stroke.
    pub open spec fn spec_points(self) -> Seq<(i64, i64)> {
        match self {
            DrawingShape::Rectangle { start, end, .. } => seq![start, end],
            DrawingShape::Circle { center, .. } => seq![center],
            DrawingShape::Arrow { start, end, .. } => seq![start, end],
            DrawingShape::BrushStroke { points, .. } => points@,
        }
    }

    /// The circle's radius; zero for every other variant.
    pub open spec fn spec_radius(self) -> int {
        match self {
            DrawingShape::Circle { radius, .. } => radius as int,
            _ => 0,
        }
    }

    pub open spec fn spec_color(self) -> Rgb {
        match self {
            DrawingShape::Rectangle { color, .. } => color,
            DrawingShape::Circle { color, .. } => color,
            DrawingShape::Arrow { color, .. } => color,
            DrawingShape::BrushStroke { color, .. } => color,
        }
    }

    pub open spec fn spec_stroke_width(self) -> i64 {
        match self {
            DrawingShape::Rectangle { stroke_width, .. } => stroke_width,
            DrawingShape::Circle { stroke_width, .. } => stroke_width,
            DrawingShape::Arrow { stroke_width, .. } => stroke_width,
            DrawingShape::BrushStroke { stroke_width, .. } => stroke_width,
        }
    }

    /// Normalized bounding box `(left, top, right, bottom)`: the box of
    /// the two endpoints for rectangles and arrows, the square around a
    /// circle, the point envelope for a brush stroke (and the origin
    /// for an empty one).
    pub open spec fn spec_bounds(self) -> (int, int, int, int) {
        match self {
            DrawingShape::Rectangle { start, end, .. } => (
                min(start.0 as int, end.0 as int),
                min(start.1 as int, end.1 as int),
                max(start.0 as int, end.0 as int),
                max(start.1 as int, end.1 as int),
            ),
            DrawingShape::Circle { center, radius, .. } => (
                center.0 - radius as int,
                center.1 - radius as int,
                center.0 + radius as int,
                center.1 + radius as int,
            ),
            DrawingShape::Arrow { start, end, .. } => (
                min(start.0 as int, end.0 as int),
                min(start.1 as int, end.1 as int),
                max(start.0 as int, end.0 as int),
                max(start.1 as int, end.1 as int),
            ),
            DrawingShape::BrushStroke { points, .. } => {
                if points@.len() == 0 {
                    (0, 0, 0, 0)
                } else {
                    envelope(points@)
                }
            },
        }
    }

    /// Well-formed on a scale where the shape has been clamped at least
    /// once: its box lies a few screen widths from the origin and its
    /// size is at most a full selection's.
    pub open spec fn bounded(self) -> bool {
        let (l, t, r, b) = self.spec_bounds();
        &&& self.wf()
        &&& -4 * COORD_LIMIT <= l && r <= 4 * COORD_LIMIT
        &&& -4 * COORD_LIMIT <= t && b <= 4 * COORD_LIMIT
        &&& r - l <= 3 * COORD_LIMIT
        &&& b - t <= 3 * COORD_LIMIT
    }

    pub fn bounds(&self) -> (r: (i64, i64, i64, i64))
        requires self.wf(),
        ensures
            (r.0 as int, r.1 as int, r.2 as int, r.3 as int) == self.spec_bounds(),
            r.0 <= r.2 && r.1 <= r.3,
    {
        match self {
            DrawingShape::Rectangle { start, end, .. } | DrawingShape::Arrow { start, end, .. } => {
                let left = if start.0 <= end.0 { start.0 } else { end.0 };
                let right = if start.0 <= end.0 { end.0 } else { start.0 };
                let top = if start.1 <= end.1 { start.1 } else { end.1 };
                let bottom = if start.1 <= end.1 { end.1 } else { start.1 };
                (left, top, right, bottom)
            }
            DrawingShape::Circle { center, radius, .. } => (
                center.0 - *radius,
                center.1 - *radius,
                center.0 + *radius,
                center.1 + *radius,
            ),
            DrawingShape::BrushStroke { points, .. } => {
                let mut left = points[0].0;
                let mut top = points[0].1;
                let mut right = points[0].0;
                let mut bottom = points[0].1;
                let mut i: usize = 1;
                while i < points.len()
                    invariant
                        1 <= i <= points@.len(),
                        1 <= points@.len() <= MAX_BRUSH_POINTS,
                        forall|j: int| 0 <= j < points@.len()
                            ==> shape_point_in_range(#[trigger] points@[j]),
                        (left as int, top as int, right as int, bottom as int)
                            == envelope(points@.subrange(0, i as int)),
                        left <= right && top <= bottom,
                        shape_in_range(left as int) && shape_in_range(top as int),
                        shape_in_range(right as int) && shape_in_range(bottom as int),
                    decreases points@.len() - i,
                {
                    let p = points[i];
                    proof {
                        let pre = points@.subrange(0, i as int);
                        let cur = points@.subrange(0, i as int + 1);
                        assert(cur.drop_last() =~= pre);
                        assert(cur.last() == points@[i as int]);
                    }
                    if p.0 < left { left = p.0; }
                    if p.1 < top { top = p.1; }
                    if p.0 > right { right = p.0; }
                    if p.1 > bottom { bottom = p.1; }
                    i += 1;
                }
                proof {
                    assert(points@.subrange(0, points@.len() as int) =~= points@);
                }
                (left, top, right, bottom)
            }
        }
    }

    /// Inclusive containment: a true distance-to-center test for
    /// circles, a bounding-box test for every other variant (an
    /// accepted approximation for arrows and brush strokes).
    pub open spec fn spec_contains(self, x: int, y: int) -> bool {
        match self {
            DrawingShape::Circle { center, radius, .. } =>
                (x - center.0) * (x - center.0) + (y - center.1) * (y - center.1)
                    <= radius * radius,
            _ => {
                let (l, t, r, b) = self.spec_bounds();
                l <= x <= r && t <= y <= b
            },
        }
    }

    pub fn contains_point(&self, x: i64, y: i64) -> (res: bool)
        requires
            self.wf(),
            -8 * COORD_LIMIT <= x as int <= 8 * COORD_LIMIT,
            -8 * COORD_LIMIT <= y as int <= 8 * COORD_LIMIT,
        ensures res == self.spec_contains(x as int, y as int),
    {
        match self {
            DrawingShape::Circle { center, radius, .. } => {
                let dx = x - center.0;
                let dy = y - center.1;
                if dx > *radius || dx < -*radius || dy > *radius || dy < -*radius {
                    proof {
                        lemma_far_on_axis_is_outside(dx as int, dy as int, *radius as int);
                    }
                    false
                } else {
                    proof {
                        lemma_square_bound(dx as int, *radius as int);
                        lemma_square_bound(dy as int, *radius as int);
                        lemma_square_bound(*radius as int, COORD_LIMIT as int);
                    }
                    dx * dx + dy * dy <= *radius * *radius
                }
            }
            _ => {
                let (left, top, right, bottom) = self.bounds();
                x >= left && x <= right && y >= top && y <= bottom
            }
        }
    }

    /// Moves every defining point of the shape by `(dx, dy)`.
    pub fn translate(&mut self, dx: i64, dy: i64)
        requires
            old(self).wf(),
            ({
                let (l, t, r, b) = envelope(old(self).spec_points());
                shape_in_range(l + dx) && shape_in_range(r + dx)
                    && shape_in_range(t + dy) && shape_in_range(b + dy)
            }),
        ensures
            final(self).wf(),
            final(self).is_same_kind(*old(self)),
            final(self).spec_color() == old(self).spec_color(),
            final(self).spec_stroke_width() == old(self).spec_stroke_width(),
            final(self).spec_radius() == old(self).spec_radius(),
            final(self).spec_points().len() == old(self).spec_points().len(),
            forall|i: int| 0 <= i < old(self).spec_points().len()
                ==> #[trigger] final(self).spec_points()[i].0 as int
                        == old(self).spec_points()[i].0 as int + dx
                    && final(self).spec_points()[i].1 as int
                        == old(self).spec_points()[i].1 as int + dy,
            final(self).spec_bounds().0 == old(self).spec_bounds().0 + dx,
            final(self).spec_bounds().1 == old(self).spec_bounds().1 + dy,
            final(self).spec_bounds().2 == old(self).spec_bounds().2 + dx,
            final(self).spec_bounds().3 == old(self).spec_bounds().3 + dy,
    {
        proof {
            lemma_envelope(old(self).spec_points());
            lemma_points_envelope(*old(self));
        }
        match self {
            DrawingShape::Rectangle { start, end, .. } => {
                start.0 += dx;
                start.1 += dy;
                end.0 += dx;
                end.1 += dy;
            }
            DrawingShape::Arrow { start, end, .. } => {
                start.0 += dx;
                start.1 += dy;
                end.0 += dx;
                end.1 += dy;
            }
            DrawingShape::Circle { center, .. } => {
                center.0 += dx;
                center.1 += dy;
            }
            DrawingShape::BrushStroke { points, .. } => {
                let ghost orig = points@;
                let mut i: usize = 0;
                while i < points.len()
                    invariant
                        0 <= i <= points@.len(),
                        points@.len() == orig.len(),
                        1 <= orig.len() <= MAX_BRUSH_POINTS,
                        forall|j: int| 0 <= j < orig.len()
                            ==> shape_point_in_range(#[trigger] orig[j]),
                        ({
                            let (l, t, r, b) = envelope(orig);
                            &&& forall|j: int| 0 <= j < orig.len()
                                ==> l <= #[trigger] orig[j].0 as int <= r
                                    && t <= orig[j].1 as int <= b
                            &&& shape_in_range(l + dx) && shape_in_range(r + dx)
                            &&& shape_in_range(t + dy) && shape_in_range(b + dy)
                        }),
                        forall|j: int| i <= j < orig.len() ==> #[trigger] points@[j] == orig[j],
                        forall|j: int| 0 <= j < i
                            ==> #[trigger] points@[j].0 as int == orig[j].0 as int + dx
                                && points@[j].1 as int == orig[j].1 as int + dy,
                        forall|j: int| 0 <= j < i
                            ==> shape_point_in_range(#[trigger] points@[j]),
                    decreases points@.len() - i,
                {
                    let p = points[i];
                    points.set(i, (p.0 + dx, p.1 + dy));
                    i += 1;
                }
                proof {
                    lemma_envelope_shift(orig, points@, dx as int, dy as int);
                }
            }
        }
    }
}

/// `(p, c)` are within the handle detection distance on one axis;
/// accepts the wider range of shape coordinates.
fn shape_near(p: i64, c: i64) -> (r: bool)
    requires
        -8 * SHAPE_COORD_LIMIT <= p as int <= 8 * SHAPE_COORD_LIMIT,
        -8 * SHAPE_COORD_LIMIT <= c as int <= 8 * SHAPE_COORD_LIMIT,
    ensures r == near(p as int, c as int),
{
    let d = p - c;
    -HANDLE_DETECT_SIZE <= d && d <= HANDLE_DETECT_SIZE
}

impl DrawingShape {
    /// The resize handle of this shape at `(x, y)`: all eight handles
    /// on its bounding box for rectangles and arrows, only the four
    /// corners for circles, none for brush strokes (they cannot be
    /// resized).
    pub open spec fn spec_resize_handle_at(self, x: int, y: int) -> Option<ResizeHandle> {
        let (l, t, r, b) = self.spec_bounds();
        match self {
            DrawingShape::Circle { .. } => corner_handle_at(x, y, l, t, r, b),
            DrawingShape::BrushStroke { .. } => None,
            _ => handle_at(x, y, l, t, r, b),
        }
    }

    pub fn get_resize_handle(&self, x: i64, y: i64) -> (res: Option<ResizeHandle>)
        requires
            self.wf(),
            in_range(x as int), in_range(y as int),
        ensures res == self.spec_resize_handle_at(x as int, y as int),
    {
        let (left, top, right, bottom) = self.bounds();

        match self {
            DrawingShape::Circle { .. } => {
                if shape_near(x, left) && shape_near(y, top) {
                    Some(ResizeHandle::TopLeft)
                } else if shape_near(x, right) && shape_near(y, top) {
                    Some(ResizeHandle::TopRight)
                } else if shape_near(x, right) && shape_near(y, bottom) {
                    Some(ResizeHandle::BottomRight)
                } else if shape_near(x, left) && shape_near(y, bottom) {
                    Some(ResizeHandle::BottomLeft)
                } else {
                    None
                }
            }
            DrawingShape::BrushStroke { .. } => None,
            _ => {
                let cx = left + (right - left) / 2;
                let cy = top + (bottom - top) / 2;
                if shape_near(x, left) && shape_near(y, top) {
                    Some(ResizeHandle::TopLeft)
                } else if shape_near(x, right) && shape_near(y, top) {
                    Some(ResizeHandle::TopRight)
                } else if shape_near(x, right) && shape_near(y, bottom) {
                    Some(ResizeHandle::BottomRight)
                } else if shape_near(x, left) && shape_near(y, bottom) {
                    Some(ResizeHandle::BottomLeft)
                } else if shape_near(x, cx) && shape_near(y, top)
                    && !shape_near(x, left) && !shape_near(x, right) {
                    Some(ResizeHandle::Top)
                } else if shape_near(x, right) && shape_near(y, cy)
                    && !shape_near(y, top) && !shape_near(y, bottom) {
                    Some(ResizeHandle::Right)
                } else if shape_near(x, cx) && shape_near(y, bottom)
                    && !shape_near(x, left) && !shape_near(x, right) {
                    Some(ResizeHandle::Bottom)
                } else if shape_near(x, left) && shape_near(y, cy)
                    && !shape_near(y, top) && !shape_near(y, bottom) {
                    Some(ResizeHandle::Left)
                } else {
                    None
                }
            }
        }
    }

    /// The point that stays fixed while the given shape handle is
    /// dragged: the opposite corner for corner handles; for the edge
    /// handles of rectangles and arrows, the corner of the opposite
    /// edge nearer the box's origin.  A circle has no edge handles and
    /// falls back to its top-left corner for them.
    pub open spec fn spec_resize_anchor(self, handle: ResizeHandle) -> (int, int) {
        let (l, t, r, b) = self.spec_bounds();
        match self {
            DrawingShape::Circle { .. } => match handle {
                ResizeHandle::TopLeft => (r, b),
                ResizeHandle::TopRight => (l, b),
                ResizeHandle::BottomRight => (l, t),
                ResizeHandle::BottomLeft => (r, t),
                _ => (l, t),
            },
            _ => match handle {
                ResizeHandle::TopLeft => (r, b),
                ResizeHandle::TopRight => (l, b),
                ResizeHandle::BottomRight => (l, t),
                ResizeHandle::BottomLeft => (r, t),
                ResizeHandle::Top => (l, b),
                ResizeHandle::Bottom => (l, t),
                ResizeHandle::Left => (r, t),
                ResizeHandle::Right => (l, t),
            },
        }
    }

    pub fn get_resize_anchor(&self, handle: ResizeHandle) -> (res: (i64, i64))
        requires self.wf(),
        ensures (res.0 as int, res.1 as int) == self.spec_resize_anchor(handle),
    {
        let (left, top, right, bottom) = self.bounds();
        let corner = match handle {
            ResizeHandle::TopLeft => (right, bottom),
            ResizeHandle::TopRight => (left, bottom),
            ResizeHandle::BottomRight => (left, top),
            ResizeHandle::BottomLeft => (right, top),
            _ => (left, top),
        };
        match self {
            DrawingShape::Circle { .. } => corner,
            _ => match handle {
                ResizeHandle::Top => (left, bottom),
                ResizeHandle::Bottom => (left, top),
                ResizeHandle::Left => (right, top),
                ResizeHandle::Right => (left, top),
                _ => corner,
            },
        }
    }
}

/// A prospective shape box clamped into the selection with a
/// minimum-size floor: each edge is pulled inside the selection, but
/// never past `MIN_SHAPE_SIZE` from the selection's opposite edge.
pub open spec fn clamp_box_to(nb: (int, int, int, int), sb: (int, int, int, int))
    -> (int, int, int, int)
{
    (
        min(max(nb.0, sb.0), sb.2 - MIN_SHAPE_SIZE),
        min(max(nb.1, sb.1), sb.3 - MIN_SHAPE_SIZE),
        max(min(nb.2, sb.2), sb.0 + MIN_SHAPE_SIZE),
        max(min(nb.3, sb.3), sb.1 + MIN_SHAPE_SIZE),
    )
}

/// A constrained circle resize takes effect only when the clamped box
/// is non-degenerate and at least the minimum diameter on its smaller
/// side; otherwise the circle is left unchanged.
pub open spec fn circle_resize_applies(cb: (int, int, int, int)) -> bool {
    let (bl, bt, br, bb) = cb;
    bl < br && bt < bb && min(br - bl, bb - bt) / 2 >= MIN_CIRCLE_RADIUS as int
}

/// The circle a constrained resize to the clamped box `cb` inside
/// selection box `sb` produces, when it applies: the largest centered
/// circle of the box, kept circular by taking the smaller box
/// dimension, shrunk to the largest radius that fits (but not below
/// the minimum) if it would leave `sb`.
pub open spec fn circle_resize_target(cb: (int, int, int, int), sb: (int, int, int, int))
    -> ((int, int), int)
{
    let (bl, bt, br, bb) = cb;
    let (sl, st, sr, sbot) = sb;
    let nr = min(br - bl, bb - bt) / 2;
    let ncx = mid(bl, br);
    let ncy = mid(bt, bb);
    if ncx - nr < sl || ncx + nr > sr || ncy - nr < st || ncy + nr > sbot {
        let mrx = min(ncx - sl, sr - ncx);
        let mry = min(ncy - st, sbot - ncy);
        ((ncx, ncy), max(min(mrx, mry), MIN_CIRCLE_RADIUS as int))
    } else {
        ((ncx, ncy), nr)
    }
}

/// The circle that a constrained resize produces from a circle at `c`
/// with radius `rad`.
pub open spec fn circle_resized(
    c: (int, int), rad: int, cb: (int, int, int, int), sb: (int, int, int, int),
) -> ((int, int), int) {
    if circle_resize_applies(cb) {
        circle_resize_target(cb, sb)
    } else {
        (c, rad)
    }
}

/// Relates the executable clamping to `clamp_box_to`.
fn clamp_box(new_bounds: (i64, i64, i64, i64), selection_bounds: (i64, i64, i64, i64))
    -> (cb: (i64, i64, i64, i64))
    requires
        -8 * COORD_LIMIT <= new_bounds.0 as int <= 8 * COORD_LIMIT,
        -8 * COORD_LIMIT <= new_bounds.1 as int <= 8 * COORD_LIMIT,
        -8 * COORD_LIMIT <= new_bounds.2 as int <= 8 * COORD_LIMIT,
        -8 * COORD_LIMIT <= new_bounds.3 as int <= 8 * COORD_LIMIT,
        in_range(selection_bounds.0 as int), in_range(selection_bounds.1 as int),
        in_range(selection_bounds.2 as int), in_range(selection_bounds.3 as int),
    ensures
        ({
            let nb = (new_bounds.0 as int, new_bounds.1 as int,
                new_bounds.2 as int, new_bounds.3 as int);
            let sb = (selection_bounds.0 as int, selection_bounds.1 as int,
                selection_bounds.2 as int, selection_bounds.3 as int);
            (cb.0 as int, cb.1 as int, cb.2 as int, cb.3 as int) == clamp_box_to(nb, sb)
        }),
        -(COORD_LIMIT + MIN_SHAPE_SIZE) <= cb.0 as int <= COORD_LIMIT + MIN_SHAPE_SIZE,
        -(COORD_LIMIT + MIN_SHAPE_SIZE) <= cb.1 as int <= COORD_LIMIT + MIN_SHAPE_SIZE,
        -(COORD_LIMIT + MIN_SHAPE_SIZE) <= cb.2 as int <= COORD_LIMIT + MIN_SHAPE_SIZE,
        -(COORD_LIMIT + MIN_SHAPE_SIZE) <= cb.3 as int <= COORD_LIMIT + MIN_SHAPE_SIZE,
{
    let (sl, st, sr, sb) = selection_bounds;
    let lo_x = if new_bounds.0 >= sl { new_bounds.0 } else { sl };
    let bl = if lo_x <= sr - MIN_SHAPE_SIZE { lo_x } else { sr - MIN_SHAPE_SIZE };
    let lo_y = if new_bounds.1 >= st { new_bounds.1 } else { st };
    let bt = if lo_y <= sb - MIN_SHAPE_SIZE { lo_y } else { sb - MIN_SHAPE_SIZE };
    let hi_x = if new_bounds.2 <= sr { new_bounds.2 } else { sr };
    let br = if hi_x >= sl + MIN_SHAPE_SIZE { hi_x } else { sl + MIN_SHAPE_SIZE };
    let hi_y = if new_bounds.3 <= sb { new_bounds.3 } else { sb };
    let bb = if hi_y >= st + MIN_SHAPE_SIZE { hi_y } else { st + MIN_SHAPE_SIZE };
    (bl, bt, br, bb)
}

/// Computes the circle a constrained resize produces, or `None` when
/// the resize does not apply and the circle stays as it is.
fn circle_fit(cb: (i64, i64, i64, i64), selection_bounds: (i64, i64, i64, i64))
    -> (res: Option<((i64, i64), i64)>)
    requires
        -(COORD_LIMIT + MIN_SHAPE_SIZE) <= cb.0 as int <= COORD_LIMIT + MIN_SHAPE_SIZE,
        -(COORD_LIMIT + MIN_SHAPE_SIZE) <= cb.1 as int <= COORD_LIMIT + MIN_SHAPE_SIZE,
        -(COORD_LIMIT + MIN_SHAPE_SIZE) <= cb.2 as int <= COORD_LIMIT + MIN_SHAPE_SIZE,
        -(COORD_LIMIT + MIN_SHAPE_SIZE) <= cb.3 as int <= COORD_LIMIT + MIN_SHAPE_SIZE,
        in_range(selection_bounds.0 as int), in_range(selection_bounds.1 as int),
        in_range(selection_bounds.2 as int), in_range(selection_bounds.3 as int),
    ensures
        ({
            let cbi = (cb.0 as int, cb.1 as int, cb.2 as int, cb.3 as int);
            let sbi = (selection_bounds.0 as int, selection_bounds.1 as int,
                selection_bounds.2 as int, selection_bounds.3 as int);
            &&& (res is Some) == circle_resize_applies(cbi)
            &&& res matches Some(v) ==> {
                let ((ncx, ncy), nrad) = circle_resize_target(cbi, sbi);
                &&& v.0.0 as int == ncx && v.0.1 as int == ncy && v.1 as int == nrad
                &&& MIN_CIRCLE_RADIUS as int <= nrad <= COORD_LIMIT as int
                &&& cbi.0 <= ncx <= cbi.2 && cbi.1 <= ncy <= cbi.3
            }
        }),
{
    let (bl, bt, br, bb) = cb;
    let (sl, st, sr, sb) = selection_bounds;
    if bl >= br || bt >= bb {
        return None;
    }
    let new_width = br - bl;
    let new_height = bb - bt;
    let diameter = if new_width <= new_height { new_width } else { new_height };
    let new_radius = diameter / 2;
    if new_radius < MIN_CIRCLE_RADIUS {
        return None;
    }
    let ncx = bl + (br - bl) / 2;
    let ncy = bt + (bb - bt) / 2;
    if ncx - new_radius < sl || ncx + new_radius > sr
        || ncy - new_radius < st || ncy + new_radius > sb {
        let mrx_a = ncx - sl;
        let mrx_b = sr - ncx;
        let mrx = if mrx_a <= mrx_b { mrx_a } else { mrx_b };
        let mry_a = ncy - st;
        let mry_b = sb - ncy;
        let mry = if mry_a <= mry_b { mry_a } else { mry_b };
        let small = if mrx <= mry { mrx } else { mry };
        let safe = if small >= MIN_CIRCLE_RADIUS { small } else { MIN_CIRCLE_RADIUS };
        Some(((ncx, ncy), safe))
    } else {
        Some(((ncx, ncy), new_radius))
    }
}

/// `post` is `pre` after a constrained resize to the prospective box
/// `nb` inside the selection box `sb`: rectangles and arrows take the
/// clamped box as their two endpoints, a circle becomes the fitted
/// circle of the clamped box, a brush stroke is unchanged.
pub open spec fn resized_to(
    pre: DrawingShape, post: DrawingShape, nb: (int, int, int, int), sb: (int, int, int, int),
) -> bool {
    let cb = clamp_box_to(nb, sb);
    match pre {
        DrawingShape::Rectangle { .. } | DrawingShape::Arrow { .. } => {
            post.spec_points().len() == 2
            && post.spec_points()[0].0 as int == cb.0
            && post.spec_points()[0].1 as int == cb.1
            && post.spec_points()[1].0 as int == cb.2
            && post.spec_points()[1].1 as int == cb.3
        },
        DrawingShape::Circle { center, radius, .. } => {
            let (nc, nrad) = circle_resized(
                (center.0 as int, center.1 as int), radius as int, cb, sb);
            post.spec_points() =~= seq![((nc.0) as i64, (nc.1) as i64)]
            && post.spec_radius() == nrad
        },
        DrawingShape::BrushStroke { .. } => post == pre,
    }
}

impl DrawingShape {
    /// Applies a caller-supplied prospective box, clamped into the
    /// selection with a minimum-size floor.  Rectangles and arrows take
    /// the clamped box directly; a circle is recomputed to stay
    /// circular and inside the selection; a brush stroke is not
    /// resizable and is left unchanged.
    #[verifier::rlimit(100)]
    pub fn resize_constrained(
        &mut self,
        new_bounds: (i64, i64, i64, i64),
        selection_bounds: (i64, i64, i64, i64),
    )
        requires
            old(self).wf(),
            -8 * COORD_LIMIT <= new_bounds.0 as int <= 8 * COORD_LIMIT,
            -8 * COORD_LIMIT <= new_bounds.1 as int <= 8 * COORD_LIMIT,
            -8 * COORD_LIMIT <= new_bounds.2 as int <= 8 * COORD_LIMIT,
            -8 * COORD_LIMIT <= new_bounds.3 as int <= 8 * COORD_LIMIT,
            in_range(selection_bounds.0 as int), in_range(selection_bounds.1 as int),
            in_range(selection_bounds.2 as int), in_range(selection_bounds.3 as int),
        ensures
            final(self).wf(),
            final(self).is_same_kind(*old(self)),
            final(self).spec_color() == old(self).spec_color(),
            final(self).spec_stroke_width() == old(self).spec_stroke_width(),
            resized_to(*old(self), *final(self),
                (new_bounds.0 as int, new_bounds.1 as int,
                    new_bounds.2 as int, new_bounds.3 as int),
                (selection_bounds.0 as int, selection_bounds.1 as int,
                    selection_bounds.2 as int, selection_bounds.3 as int)),
            (old(self).bounded()
                && selection_bounds.0 <= selection_bounds.2
                && selection_bounds.1 <= selection_bounds.3) ==> final(self).bounded(),
    {
        let (bl, bt, br, bb) = clamp_box(new_bounds, selection_bounds);

        match self {
            DrawingShape::Rectangle { start, end, .. } => {
                *start = (bl, bt);
                *end = (br, bb);
            }
            DrawingShape::Arrow { start, end, .. } => {
                *start = (bl, bt);
                *end = (br, bb);
            }
            DrawingShape::Circle { center, radius, .. } => {
                match circle_fit((bl, bt, br, bb), selection_bounds) {
                    Some((new_center, new_radius)) => {
                        *center = new_center;
                        *radius = new_radius;
                    }
                    None => {}
                }
            }
            DrawingShape::BrushStroke { .. } => {}
        }
    }

    /// Translates the shape by the smallest delta that brings its
    /// bounding box inside the selection box (no resizing); a shape
    /// larger than the selection is aligned to the selection's
    /// left/top edge on the overflowing axis.
    pub fn constrain_to_selection(&mut self, selection_bounds: (i64, i64, i64, i64))
        requires
            old(self).wf(),
            old(self).spec_bounds().2 - old(self).spec_bounds().0 <= 3 * COORD_LIMIT,
            old(self).spec_bounds().3 - old(self).spec_bounds().1 <= 3 * COORD_LIMIT,
            in_range(selection_bounds.0 as int), in_range(selection_bounds.1 as int),
            in_range(selection_bounds.2 as int), in_range(selection_bounds.3 as int),
        ensures
            final(self).wf(),
            final(self).bounded(),
            final(self).is_same_kind(*old(self)),
            final(self).spec_color() == old(self).spec_color(),
            final(self).spec_stroke_width() == old(self).spec_stroke_width(),
            final(self).spec_radius() == old(self).spec_radius(),
            ({
                let (l, t, r, b) = old(self).spec_bounds();
                let sl = selection_bounds.0 as int;
                let st = selection_bounds.1 as int;
                let sr = selection_bounds.2 as int;
                let sb = selection_bounds.3 as int;
                let dx = if l < sl { sl - l } else if r > sr { sr - r } else { 0 };
                let dy = if t < st { st - t } else if b > sb { sb - b } else { 0 };
                &&& final(self).spec_points().len() == old(self).spec_points().len()
                &&& forall|i: int| 0 <= i < old(self).spec_points().len()
                    ==> (#[trigger] final(self).spec_points()[i]).0 as int
                            == old(self).spec_points()[i].0 as int + dx
                        && final(self).spec_points()[i].1 as int
                            == old(self).spec_points()[i].1 as int + dy
                &&& final(self).spec_bounds() == (l + dx, t + dy, r + dx, b + dy)
            }),
            ({
                let (l, t, r, b) = old(self).spec_bounds();
                let sl = selection_bounds.0 as int;
                let st = selection_bounds.1 as int;
                let sr = selection_bounds.2 as int;
                let sb = selection_bounds.3 as int;
                let (nl, nt, nr, nb) = final(self).spec_bounds();
                (r - l <= sr - sl ==> sl <= nl && nr <= sr)
                && (b - t <= sb - st ==> st <= nt && nb <= sb)
            }),
    {
        let (sl, st, sr, sb) = selection_bounds;
        let (left, top, right, bottom) = self.bounds();

        let dx: i64 = if left < sl {
            sl - left
        } else if right > sr {
            sr - right
        } else {
            0
        };
        let dy: i64 = if top < st {
            st - top
        } else if bottom > sb {
            sb - bottom
        } else {
            0
        };

        proof {
            lemma_points_envelope(*old(self));
        }
        if dx != 0 || dy != 0 {
            self.translate(dx, dy);
        }
    }
}

/// `post` is the point sequence of a brush stroke after a pointer
/// position is offered to `pre`: skipped when too close to the last
/// recorded point, appended otherwise, with the oldest block dropped
/// first when the stroke is at its cap.
pub open spec fn brush_extended(pre: Seq<(i64, i64)>, post: Seq<(i64, i64)>, x: i64, y: i64)
    -> bool
{
    let p = pre.last();
    let dx = x as int - p.0 as int;
    let dy = y as int - p.1 as int;
    if dx * dx + dy * dy < (MIN_BRUSH_POINT_DIST * MIN_BRUSH_POINT_DIST) as int {
        post =~= pre
    } else if pre.len() < MAX_BRUSH_POINTS {
        post =~= pre.push((x, y))
    } else {
        post =~= pre.subrange(BRUSH_TRIM_BLOCK as int, pre.len() as int).push((x, y))
    }
}

impl DrawingShape {
    /// Records a pointer position into a brush stroke: a point closer
    /// than the minimum pixel distance to the last recorded point is
    /// skipped, and when the stroke is at its point cap the oldest
    /// block of points is dropped first, so the stroke never exceeds
    /// the cap.  No other shape kind records points.
    pub fn add_brush_point(&mut self, x: i64, y: i64)
        requires
            (*old(self)) is BrushStroke,
            old(self).wf(),
            in_range(x as int), in_range(y as int),
        ensures
            final(self).wf(),
            (*final(self)) is BrushStroke,
            final(self).spec_color() == old(self).spec_color(),
            final(self).spec_stroke_width() == old(self).spec_stroke_width(),
            final(self).spec_points().len() <= MAX_BRUSH_POINTS,
            brush_extended(old(self).spec_points(), final(self).spec_points(), x, y),
    {
        match self {
            DrawingShape::BrushStroke { points, .. } => {
                let last = points[points.len() - 1];
                let dx = x - last.0;
                let dy = y - last.1;
                proof {
                    lemma_square_bound(dx as int, SHAPE_COORD_LIMIT + COORD_LIMIT);
                    lemma_square_bound(dy as int, SHAPE_COORD_LIMIT + COORD_LIMIT);
                }
                if dx * dx + dy * dy < MIN_BRUSH_POINT_DIST * MIN_BRUSH_POINT_DIST {
                    return;
                }
                if points.len() >= MAX_BRUSH_POINTS {
                    let ghost orig = points@;
                    let mut kept: Vec<(i64, i64)> = Vec::new();
                    let mut i: usize = BRUSH_TRIM_BLOCK;
                    while i < points.len()
                        invariant
                            BRUSH_TRIM_BLOCK <= i <= orig.len(),
                            points@ == orig,
                            orig.len() == MAX_BRUSH_POINTS,
                            kept@ =~= orig.subrange(BRUSH_TRIM_BLOCK as int, i as int),
                        decreases orig.len() - i,
                    {
                        kept.push(points[i]);
                        i += 1;
                    }
                    *points = kept;
                }
                points.push((x, y));
            }
            _ => {}
        }
    }
}

/// After a constrained resize that takes effect, a circle's bounding
/// box is exactly square, its radius at least the minimum, and the box
/// lies inside the selection box, provided the selection is at least
/// the minimum shape size on each axis.
pub proof fn lemma_circle_resize_contained(nb: (int, int, int, int), sb: (int, int, int, int))
    requires
        in_range(sb.0), in_range(sb.1), in_range(sb.2), in_range(sb.3),
        sb.0 + MIN_SHAPE_SIZE <= sb.2,
        sb.1 + MIN_SHAPE_SIZE <= sb.3,
        circle_resize_applies(clamp_box_to(nb, sb)),
    ensures
        ({
            let ((cx, cy), rad) = circle_resize_target(clamp_box_to(nb, sb), sb);
            &&& rad >= MIN_CIRCLE_RADIUS
            &&& (cx + rad) - (cx - rad) == (cy + rad) - (cy - rad)
            &&& sb.0 <= cx - rad && cx + rad <= sb.2
            &&& sb.1 <= cy - rad && cy + rad <= sb.3
        }),
{
    let (bl, bt, br, bb) = clamp_box_to(nb, sb);
    let w = br - bl;
    let h = bb - bt;
    let nr = min(w, h) / 2;
    assert(sb.0 <= bl <= sb.2 - MIN_SHAPE_SIZE);
    assert(sb.1 <= bt <= sb.3 - MIN_SHAPE_SIZE);
    assert(sb.0 + MIN_SHAPE_SIZE <= br <= sb.2);
    assert(sb.1 + MIN_SHAPE_SIZE <= bb <= sb.3);
    assert(min(w, h) >= 2 * nr >= 2 * MIN_CIRCLE_RADIUS);
    let cx = mid(bl, br);
    let cy = mid(bt, bb);
    assert(w / 2 + w / 2 <= w && 2 * (w / 2) + 1 >= w);
    assert(h / 2 + h / 2 <= h && 2 * (h / 2) + 1 >= h);
    assert(cx - bl >= nr && br - cx >= nr);
    assert(cy - bt >= nr && bb - cy >= nr);
}

impl DrawingShape {
    /// The handle positions drawn on a selected shape, in draw order:
    /// the full eight-position ring for rectangles and arrows, the
    /// four corners for circles, none for a brush stroke, which is not
    /// resizable.
    pub fn handle_points(&self) -> (res: Vec<(i64, i64)>)
        requires self.wf(),
        ensures
            ({
                let (l, t, r, b) = self.spec_bounds();
                match self {
                    DrawingShape::BrushStroke { .. } => res@.len() == 0,
                    DrawingShape::Circle { .. } => {
                        let ring = corner_ring(l, t, r, b);
                        res@.len() == ring.len()
                        && forall|i: int| 0 <= i < ring.len()
                            ==> ((#[trigger] res@[i]).0 as int, res@[i].1 as int) == ring[i]
                    },
                    _ => {
                        let ring = handle_ring(l, t, r, b);
                        res@.len() == ring.len()
                        && forall|i: int| 0 <= i < ring.len()
                            ==> ((#[trigger] res@[i]).0 as int, res@[i].1 as int) == ring[i]
                    },
                }
            }),
    {
        let (left, top, right, bottom) = self.bounds();
        let mut res: Vec<(i64, i64)> = Vec::new();
        match self {
            DrawingShape::BrushStroke { .. } => {}
            DrawingShape::Circle { .. } => {
                res.push((left, top));
                res.push((right, top));
                res.push((right, bottom));
                res.push((left, bottom));
            }
            _ => {
                let cx = left + (right - left) / 2;
                let cy = top + (bottom - top) / 2;
                res.push((left, top));
                res.push((cx, top));
                res.push((right, top));
                res.push((right, cy));
                res.push((right, bottom));
                res.push((cx, bottom));
                res.push((left, bottom));
                res.push((left, cy));
            }
        }
        res
    }
}

/// For `0 <= b`, a value strictly beyond `[-b, b]` has a square
/// strictly beyond `b * b`.
proof fn lemma_far_on_axis_is_outside(dx: int, dy: int, r: int)
    requires
        0 <= r,
        dx > r || dx < -r || dy > r || dy < -r,
    ensures dx * dx + dy * dy > r * r,
{
    assert(dx * dx + dy * dy > r * r) by (nonlinear_arith)
        requires 0 <= r, dx > r || dx < -r || dy > r || dy < -r,
    ;
}

/// Squares respect interval bounds.
proof fn lemma_square_bound(a: int, m: int)
    requires -m <= a <= m, 0 <= m,
    ensures 0 <= a * a <= m * m,
{
    assert(0 <= a * a <= m * m) by (nonlinear_arith)
        requires -m <= a <= m, 0 <= m,
    ;
}

} // verus!
