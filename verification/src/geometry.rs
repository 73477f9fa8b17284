//! Coordinate types for the three spaces the editor works in: screen pixels,
//! logical plot coordinates and pattern-document coordinates.  Plot and
//! pattern coordinates are numerically identical but semantically distinct.
//! All coordinates are integers; fractional positions are not part of the
//! model.

use vstd::prelude::*;

verus! {

/// Largest magnitude a document-space (plot or pattern) coordinate may take.
pub const COORD_LIMIT: i64 = 1_000_000_000;

/// Largest magnitude a screen-space (pixel) coordinate may take.
pub const PIXEL_LIMIT: i64 = 100_000;

/// Largest number of document units that one pixel may stand for.
pub const SCALE_LIMIT: i64 = 1_000;

/// A position on the screen, in pixels.
#[derive(Clone, Copy, Debug, PartialEq, Eq, Structural)]
pub struct Pos2 {
    pub x: i64,
    pub y: i64,
}

/// A displacement on the screen, in pixels.
#[derive(Clone, Copy, Debug, PartialEq, Eq, Structural)]
pub struct Vec2 {
    pub x: i64,
    pub y: i64,
}

/// A point in logical plot coordinates.
#[derive(Clone, Copy, Debug, PartialEq, Eq, Structural)]
pub struct PlotPoint {
    pub x: i64,
    pub y: i64,
}

/// A point (or a displacement) in pattern-document coordinates.
#[derive(Clone, Copy, Debug, PartialEq, Eq, Structural)]
pub struct PatternPos {
    pub x: i64,
    pub y: i64,
}

impl Pos2 {
    pub fn new(x: i64, y: i64) -> (r: Pos2)
        ensures
            r == (Pos2 { x, y }),
    {
        Pos2 { x, y }
    }
}

impl Vec2 {
    pub fn new(x: i64, y: i64) -> (r: Vec2)
        ensures
            r == (Vec2 { x, y }),
    {
        Vec2 { x, y }
    }

    /// Whether both components are small enough for squared-length arithmetic.
    pub open spec fn wf(self) -> bool {
        &&& -2 * PIXEL_LIMIT <= self.x <= 2 * PIXEL_LIMIT
        &&& -2 * PIXEL_LIMIT <= self.y <= 2 * PIXEL_LIMIT
    }

    /// Squared Euclidean length of the displacement.
    pub open spec fn len_sq(self) -> int {
        self.x * self.x + self.y * self.y
    }
}

impl PlotPoint {
    pub fn new(x: i64, y: i64) -> (r: PlotPoint)
        ensures
            r == (PlotPoint { x, y }),
    {
        PlotPoint { x, y }
    }

    pub open spec fn wf(self) -> bool {
        &&& -COORD_LIMIT <= self.x <= COORD_LIMIT
        &&& -COORD_LIMIT <= self.y <= COORD_LIMIT
    }
}

impl PatternPos {
    pub fn new(x: i64, y: i64) -> (r: PatternPos)
        ensures
            r == (PatternPos { x, y }),
    {
        PatternPos { x, y }
    }

    pub open spec fn wf(self) -> bool {
        &&& -COORD_LIMIT <= self.x <= COORD_LIMIT
        &&& -COORD_LIMIT <= self.y <= COORD_LIMIT
    }
}

/// Squared Euclidean distance between two pattern positions.
pub open spec fn dist_sq(a: PatternPos, b: PatternPos) -> int {
    (a.x - b.x) * (a.x - b.x) + (a.y - b.y) * (a.y - b.y)
}

/// Computes the squared distance between two in-range pattern positions.
pub fn dist_sq_exec(a: PatternPos, b: PatternPos) -> (r: i64)
    requires
        a.wf(),
        b.wf(),
    ensures
        r == dist_sq(a, b),
{
    let dx: i64 = a.x - b.x;
    let dy: i64 = a.y - b.y;
    proof {
        assert(dx * dx <= 4 * COORD_LIMIT * COORD_LIMIT && dx * dx >= 0) by (nonlinear_arith)
            requires
                -2 * COORD_LIMIT <= dx <= 2 * COORD_LIMIT,
        ;
        assert(dy * dy <= 4 * COORD_LIMIT * COORD_LIMIT && dy * dy >= 0) by (nonlinear_arith)
            requires
                -2 * COORD_LIMIT <= dy <= 2 * COORD_LIMIT,
        ;
    }
    dx * dx + dy * dy
}

/// Floor division of `a` by a positive `b`, agreeing with the Euclidean
/// division that specification arithmetic uses.
pub fn div_floor(a: i64, b: i64) -> (r: i64)
    requires
        1 <= b <= COORD_LIMIT,
        -4 * COORD_LIMIT * COORD_LIMIT <= a <= 4 * COORD_LIMIT * COORD_LIMIT,
    ensures
        r == a as int / b as int,
        a >= 0 ==> 0 <= r <= a,
        a < 0 ==> a <= r <= 0,
{
    proof {
        vstd::arithmetic::div_mod::lemma_fundamental_div_mod(a as int, b as int);
        vstd::arithmetic::div_mod::lemma_mod_bound(a as int, b as int);
        let q = a as int / b as int;
        let rem = a as int % b as int;
        assert((a >= 0 ==> 0 <= q <= a) && (a < 0 ==> a <= q <= 0)) by (nonlinear_arith)
            requires
                a == b * q + rem,
                0 <= rem < b,
                b >= 1,
        ;
    }
    if a >= 0 {
        let q: u64 = (a as u64) / (b as u64);
        q as i64
    } else {
        let m: u64 = (-a) as u64;
        let bu: u64 = b as u64;
        let q: u64 = (m + (bu - 1)) / bu;
        proof {
            lemma_neg_div_floor(a as int, b as int);
        }
        -(q as i64)
    }
}

/// For a negative dividend and positive divisor, floor division is the
/// negated rounded-up division of the magnitudes.
proof fn lemma_neg_div_floor(a: int, b: int)
    requires
        a < 0,
        b >= 1,
    ensures
        a / b == -((-a + b - 1) / b),
{
    let m = -a;
    let q = (m + b - 1) / b;
    let r1 = (m + b - 1) % b;
    vstd::arithmetic::div_mod::lemma_fundamental_div_mod(m + b - 1, b);
    assert(m + b - 1 == b * q + r1);
    let r2 = b - 1 - r1;
    assert(a == (-q) * b + r2) by (nonlinear_arith)
        requires
            a == -m,
            m + b - 1 == b * q + r1,
            r2 == b - 1 - r1,
    ;
    vstd::arithmetic::div_mod::lemma_fundamental_div_mod_converse(a, b, -q, r2);
}

} // verus!
