//! The screen transform: the bridge between screen pixels and logical plot
//! coordinates.  A transform maps the pixel frame `[frame_min, frame_max]`
//! onto the visible plot window starting at `bounds_min`, with an integer
//! per-axis scale `dvalue_dpos` (document units per pixel) and optional
//! per-axis centering locks.

use vstd::prelude::*;

use crate::geometry::COORD_LIMIT;
use crate::geometry::PIXEL_LIMIT;
use crate::geometry::SCALE_LIMIT;
use crate::geometry::PlotPoint;
use crate::geometry::Pos2;
use crate::geometry::div_floor;

verus! {

/// Snapshot of the canvas view for one pointer event.
#[derive(Clone, Copy, Debug, PartialEq, Eq, Structural)]
pub struct ScreenTransform {
    /// Top-left corner of the pixel frame the plot occupies.
    pub frame_min: Pos2,
    /// Bottom-right corner of the pixel frame the plot occupies.
    pub frame_max: Pos2,
    /// Plot coordinate shown at `frame_min`.
    pub bounds_min: PlotPoint,
    /// Document units per pixel along the x axis.
    pub dvalue_dpos_x: i64,
    /// Document units per pixel along the y axis.
    pub dvalue_dpos_y: i64,
    /// Whether the x axis is locked to stay centered.
    pub x_centered: bool,
    /// Whether the y axis is locked to stay centered.
    pub y_centered: bool,
}

impl ScreenTransform {
    /// A usable transform: a non-empty pixel frame within the screen limits,
    /// a positive bounded scale, and a visible plot window that stays within
    /// the coordinate limits.
    pub open spec fn wf(self) -> bool {
        &&& -PIXEL_LIMIT <= self.frame_min.x <= self.frame_max.x <= PIXEL_LIMIT
        &&& -PIXEL_LIMIT <= self.frame_min.y <= self.frame_max.y <= PIXEL_LIMIT
        &&& 1 <= self.dvalue_dpos_x <= SCALE_LIMIT
        &&& 1 <= self.dvalue_dpos_y <= SCALE_LIMIT
        &&& -COORD_LIMIT <= self.bounds_min.x
        &&& -COORD_LIMIT <= self.bounds_min.y
        &&& self.bounds_max_x() <= COORD_LIMIT
        &&& self.bounds_max_y() <= COORD_LIMIT
    }

    /// Plot coordinate shown at `frame_max`, x axis.
    pub open spec fn bounds_max_x(self) -> int {
        self.bounds_min.x + (self.frame_max.x - self.frame_min.x) * self.dvalue_dpos_x
    }

    /// Plot coordinate shown at `frame_max`, y axis.
    pub open spec fn bounds_max_y(self) -> int {
        self.bounds_min.y + (self.frame_max.y - self.frame_min.y) * self.dvalue_dpos_y
    }

    /// Plot value of a screen pixel, x axis.
    pub open spec fn value_of_x(self, sx: int) -> int {
        (sx - self.frame_min.x) * self.dvalue_dpos_x + self.bounds_min.x
    }

    /// Plot value of a screen pixel, y axis.
    pub open spec fn value_of_y(self, sy: int) -> int {
        (sy - self.frame_min.y) * self.dvalue_dpos_y + self.bounds_min.y
    }

    /// Screen pixel of a plot value, x axis.
    pub open spec fn screen_of_x(self, vx: int) -> int {
        (vx - self.bounds_min.x) / (self.dvalue_dpos_x as int) + self.frame_min.x
    }

    /// Screen pixel of a plot value, y axis.
    pub open spec fn screen_of_y(self, vy: int) -> int {
        (vy - self.bounds_min.y) / (self.dvalue_dpos_y as int) + self.frame_min.y
    }

    /// Whether a screen position lies inside the pixel frame.
    pub open spec fn in_frame(self, p: Pos2) -> bool {
        &&& self.frame_min.x <= p.x <= self.frame_max.x
        &&& self.frame_min.y <= p.y <= self.frame_max.y
    }

    /// Smallest visible plot coordinate per axis.
    pub fn bounds_min(&self) -> (r: PlotPoint)
        ensures
            r == self.bounds_min,
    {
        self.bounds_min
    }

    /// Largest visible plot coordinate per axis.
    pub fn bounds_max(&self) -> (r: PlotPoint)
        requires
            self.wf(),
        ensures
            r.x == self.bounds_max_x(),
            r.y == self.bounds_max_y(),
            r.wf(),
    {
        proof {
            self.lemma_value_in_bounds(self.frame_max);
        }
        let x: i64 = (self.frame_max.x - self.frame_min.x) * self.dvalue_dpos_x
            + self.bounds_min.x;
        let y: i64 = (self.frame_max.y - self.frame_min.y) * self.dvalue_dpos_y
            + self.bounds_min.y;
        PlotPoint { x, y }
    }

    /// Document units per pixel, per axis.
    pub fn dvalue_dpos(&self) -> (r: (i64, i64))
        ensures
            r.0 == self.dvalue_dpos_x,
            r.1 == self.dvalue_dpos_y,
    {
        (self.dvalue_dpos_x, self.dvalue_dpos_y)
    }

    /// A screen position inside the frame maps to a plot value inside the
    /// visible window.
    pub proof fn lemma_value_in_bounds(self, pos: Pos2)
        requires
            self.wf(),
            self.in_frame(pos),
        ensures
            self.bounds_min.x <= self.value_of_x(pos.x as int) <= self.bounds_max_x(),
            self.bounds_min.y <= self.value_of_y(pos.y as int) <= self.bounds_max_y(),
    {
        assert((pos.x - self.frame_min.x) * self.dvalue_dpos_x >= 0
            && (pos.x - self.frame_min.x) * self.dvalue_dpos_x
                <= (self.frame_max.x - self.frame_min.x) * self.dvalue_dpos_x)
            by (nonlinear_arith)
            requires
                0 <= pos.x - self.frame_min.x <= self.frame_max.x - self.frame_min.x,
                self.dvalue_dpos_x >= 1,
        ;
        assert((pos.y - self.frame_min.y) * self.dvalue_dpos_y >= 0
            && (pos.y - self.frame_min.y) * self.dvalue_dpos_y
                <= (self.frame_max.y - self.frame_min.y) * self.dvalue_dpos_y)
            by (nonlinear_arith)
            requires
                0 <= pos.y - self.frame_min.y <= self.frame_max.y - self.frame_min.y,
                self.dvalue_dpos_y >= 1,
        ;
    }

    /// Converts a screen position inside the frame to the plot point shown
    /// there.
    pub fn value_from_position(&self, pos: Pos2) -> (r: PlotPoint)
        requires
            self.wf(),
            self.in_frame(pos),
        ensures
            r.x == self.value_of_x(pos.x as int),
            r.y == self.value_of_y(pos.y as int),
            self.bounds_min.x <= r.x <= self.bounds_max_x(),
            self.bounds_min.y <= r.y <= self.bounds_max_y(),
            r.wf(),
    {
        proof {
            self.lemma_value_in_bounds(pos);
        }
        let x: i64 = (pos.x - self.frame_min.x) * self.dvalue_dpos_x + self.bounds_min.x;
        let y: i64 = (pos.y - self.frame_min.y) * self.dvalue_dpos_y + self.bounds_min.y;
        PlotPoint { x, y }
    }

    /// Converts a plot point to the screen pixel that shows it.
    pub fn position_from_point(&self, p: &PlotPoint) -> (r: Pos2)
        requires
            self.wf(),
            p.wf(),
        ensures
            r.x == self.screen_of_x(p.x as int),
            r.y == self.screen_of_y(p.y as int),
            -2 * COORD_LIMIT - PIXEL_LIMIT <= r.x <= 2 * COORD_LIMIT + PIXEL_LIMIT,
            -2 * COORD_LIMIT - PIXEL_LIMIT <= r.y <= 2 * COORD_LIMIT + PIXEL_LIMIT,
    {
        let x: i64 = div_floor(p.x - self.bounds_min.x, self.dvalue_dpos_x) + self.frame_min.x;
        let y: i64 = div_floor(p.y - self.bounds_min.y, self.dvalue_dpos_y) + self.frame_min.y;
        Pos2 { x, y }
    }
}

/// Multiplying by the scale and dividing again changes nothing: the scale
/// cancels under Euclidean division.
proof fn lemma_mul_div_cancel(a: int, d: int)
    requires
        d >= 1,
    ensures
        (a * d) / d == a,
{
    vstd::arithmetic::div_mod::lemma_fundamental_div_mod_converse(a * d, d, a, 0);
}

/// Converting a screen position to a plot value and back returns the same
/// screen position: the plot-to-screen map inverts the screen-to-plot map
/// exactly.
pub proof fn lemma_position_value_inverse(t: ScreenTransform, pos: Pos2)
    requires
        t.wf(),
    ensures
        t.screen_of_x(t.value_of_x(pos.x as int)) == pos.x as int,
        t.screen_of_y(t.value_of_y(pos.y as int)) == pos.y as int,
{
    lemma_mul_div_cancel(pos.x - t.frame_min.x, t.dvalue_dpos_x as int);
    lemma_mul_div_cancel(pos.y - t.frame_min.y, t.dvalue_dpos_y as int);
}

/// Coordinate round trip: for every document point and every transform,
/// mapping the point to the screen, back to document space and to the screen
/// once more gives the same screen position as mapping it once.
pub proof fn lemma_coordinate_round_trip(t: ScreenTransform, p: PlotPoint)
    requires
        t.wf(),
    ensures
        t.screen_of_x(t.value_of_x(t.screen_of_x(p.x as int))) == t.screen_of_x(p.x as int),
        t.screen_of_y(t.value_of_y(t.screen_of_y(p.y as int))) == t.screen_of_y(p.y as int),
{
    lemma_mul_div_cancel(t.screen_of_x(p.x as int) - t.frame_min.x, t.dvalue_dpos_x as int);
    lemma_mul_div_cancel(t.screen_of_y(p.y as int) - t.frame_min.y, t.dvalue_dpos_y as int);
}

} // verus!
