//! Adaptive floating toolbar: placement next to the selection and
//! button-index resolution for clicks.

use vstd::prelude::*;
use vstd::math::{min, max};
use crate::geom::{Selection, mid};
use crate::{
    BUTTON_WIDTH, BUTTON_HEIGHT, BUTTON_SPACING, TOTAL_BUTTONS, TOOLBAR_MARGIN, SCREEN_MARGIN,
    MAX_DIM, in_range,
};

verus! {

/// The floating row of tool and action buttons next to the selection:
/// a derived, ephemeral value recomputed from the selection and the
/// screen size whenever it is needed.
#[derive(Debug, Clone, Copy)]
pub struct Toolbar {
    pub x: i64,
    pub y: i64,
    pub width: i64,
    pub height: i64,
}

/// Total toolbar width: the buttons plus the gaps between them.
pub open spec fn spec_toolbar_width() -> int {
    TOTAL_BUTTONS * BUTTON_WIDTH + (TOTAL_BUTTONS - 1) * BUTTON_SPACING
}

/// Where the toolbar goes for a given selection and screen: centered
/// under the selection with a margin gap, flipped above the selection
/// when it would cross the bottom screen margin, and clamped into the
/// screen margins on both axes.
pub open spec fn spec_toolbar_pos(s: Selection, sw: int, sh: int) -> (int, int) {
    let (left, top, right, bottom) = s.spec_bounds();
    let cx = mid(left, right);
    let width = spec_toolbar_width();
    let height = BUTTON_HEIGHT as int;
    let default_y = bottom + TOOLBAR_MARGIN;
    let flipped = if default_y + height > sh - SCREEN_MARGIN {
        top - height - TOOLBAR_MARGIN
    } else {
        default_y
    };
    let y = max(flipped, SCREEN_MARGIN as int);
    let x = min(max(cx - width / 2, SCREEN_MARGIN as int), sw - width - SCREEN_MARGIN);
    (x, y)
}

impl Toolbar {
    /// Geometry small enough for the arithmetic below, with the fixed
    /// button-row size.
    pub open spec fn wf(self) -> bool {
        &&& -2 * MAX_DIM <= self.x as int <= 2 * MAX_DIM
        &&& -2 * MAX_DIM <= self.y as int <= 2 * MAX_DIM
        &&& self.width as int == spec_toolbar_width()
        &&& self.height == BUTTON_HEIGHT
    }

    pub fn calculate(selection: &Selection, screen_size: (u32, u32)) -> (r: Toolbar)
        requires
            selection.wf(),
            screen_size.0 as int <= MAX_DIM,
            screen_size.1 as int <= MAX_DIM,
        ensures
            r.wf(),
            (r.x as int, r.y as int)
                == spec_toolbar_pos(*selection, screen_size.0 as int, screen_size.1 as int),
            r.width as int == spec_toolbar_width(),
            r.height == BUTTON_HEIGHT,
    {
        let (left, top, right, bottom) = selection.bounds();
        let center_x = left + (right - left) / 2;

        let width = TOTAL_BUTTONS * BUTTON_WIDTH + (TOTAL_BUTTONS - 1) * BUTTON_SPACING;
        let height = BUTTON_HEIGHT;

        let screen_w = screen_size.0 as i64;
        let screen_h = screen_size.1 as i64;

        let default_y = bottom + TOOLBAR_MARGIN;
        let flipped = if default_y + height > screen_h - SCREEN_MARGIN {
            top - height - TOOLBAR_MARGIN
        } else {
            default_y
        };
        let y = if flipped > SCREEN_MARGIN { flipped } else { SCREEN_MARGIN };

        let x_lo = center_x - width / 2;
        let x_hi = if x_lo > SCREEN_MARGIN { x_lo } else { SCREEN_MARGIN };
        let x = if x_hi < screen_w - width - SCREEN_MARGIN {
            x_hi
        } else {
            screen_w - width - SCREEN_MARGIN
        };

        Toolbar { x, y, width, height }
    }

    /// Inclusive containment of `(x, y)` in the toolbar's box.
    pub open spec fn spec_contains(self, x: int, y: int) -> bool {
        self.x <= x <= self.x + self.width && self.y <= y <= self.y + self.height
    }

    pub fn contains_point(&self, x: i64, y: i64) -> (r: bool)
        requires self.wf(), in_range(x as int), in_range(y as int),
        ensures r == self.spec_contains(x as int, y as int),
    {
        x >= self.x && x <= self.x + self.width && y >= self.y && y <= self.y + self.height
    }

    /// The button under `(x, y)`: the zero-based index obtained by
    /// dividing the horizontal offset into the toolbar by a button
    /// pitch, for points inside the toolbar only.
    pub open spec fn spec_button_index(self, x: int, y: int) -> Option<int> {
        if !self.spec_contains(x, y) {
            None
        } else {
            let idx = (x - self.x) / (BUTTON_WIDTH + BUTTON_SPACING);
            if idx < TOTAL_BUTTONS {
                Some(idx)
            } else {
                None
            }
        }
    }

    pub fn get_button_index(&self, x: i64, y: i64) -> (res: Option<usize>)
        requires self.wf(), in_range(x as int), in_range(y as int),
        ensures
            ({
                let s = self.spec_button_index(x as int, y as int);
                match res {
                    Some(i) => s == Some(i as int) && i < TOTAL_BUTTONS,
                    None => s is None,
                }
            }),
    {
        if !self.contains_point(x, y) {
            return None;
        }
        let relative_x = x - self.x;
        let index = relative_x / (BUTTON_WIDTH + BUTTON_SPACING);
        if index < TOTAL_BUTTONS {
            Some(index as usize)
        } else {
            None
        }
    }

    /// Left edge of button `i`, as drawn.
    pub fn button_x(&self, i: usize) -> (r: i64)
        requires self.wf(), i < TOTAL_BUTTONS,
        ensures r as int == self.x + i * (BUTTON_WIDTH + BUTTON_SPACING),
    {
        let step = (i as i64) * (BUTTON_WIDTH + BUTTON_SPACING);
        proof {
            assert(0 <= (i as i64) * (BUTTON_WIDTH + BUTTON_SPACING) <= 4 * (BUTTON_WIDTH + BUTTON_SPACING))
                by (nonlinear_arith)
                requires 0 <= i < TOTAL_BUTTONS, TOTAL_BUTTONS == 5i64,
            ;
        }
        self.x + step
    }

    /// The pointer is over button `i`'s box.
    pub open spec fn spec_button_hovered(self, i: int, mx: int, my: int) -> bool {
        let bx = self.x + i * (BUTTON_WIDTH + BUTTON_SPACING);
        bx <= mx <= bx + BUTTON_WIDTH && self.y <= my <= self.y + BUTTON_HEIGHT
    }

    pub fn button_hovered(&self, i: usize, mx: i64, my: i64) -> (r: bool)
        requires self.wf(), i < TOTAL_BUTTONS, in_range(mx as int), in_range(my as int),
        ensures r == self.spec_button_hovered(i as int, mx as int, my as int),
    {
        let bx = self.button_x(i);
        mx >= bx && mx <= bx + BUTTON_WIDTH && my >= self.y && my <= self.y + BUTTON_HEIGHT
    }
}

/// The toolbar computed for this selection and screen contains the
/// point.
pub open spec fn spec_toolbar_contains_at(s: Selection, sw: int, sh: int, x: int, y: int) -> bool {
    let (tx, ty) = spec_toolbar_pos(s, sw, sh);
    tx <= x <= tx + spec_toolbar_width() && ty <= y <= ty + BUTTON_HEIGHT
}

/// The button index the toolbar computed for this selection and
/// screen resolves the point to.
pub open spec fn spec_toolbar_button_at(s: Selection, sw: int, sh: int, x: int, y: int)
    -> Option<int>
{
    let (tx, ty) = spec_toolbar_pos(s, sw, sh);
    if !spec_toolbar_contains_at(s, sw, sh, x, y) {
        None
    } else {
        let idx = (x - tx) / (BUTTON_WIDTH + BUTTON_SPACING);
        if idx < TOTAL_BUTTONS {
            Some(idx)
        } else {
            None
        }
    }
}

/// When the selection's bottom is within the toolbar's room (its
/// height plus both margins) of the screen bottom, the toolbar is
/// placed above the selection, not below.
pub proof fn lemma_toolbar_flips_above(s: Selection, sw: int, sh: int)
    requires
        s.wf(),
        s.spec_bounds().3 + TOOLBAR_MARGIN + BUTTON_HEIGHT > sh - SCREEN_MARGIN,
    ensures
        spec_toolbar_pos(s, sw, sh).1
            == max(s.spec_bounds().1 - BUTTON_HEIGHT - TOOLBAR_MARGIN, SCREEN_MARGIN as int),
{
}

} // verus!
