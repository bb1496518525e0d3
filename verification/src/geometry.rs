//! Bounding-box arithmetic, margin trimming and point containment in raw
//! touchpad device coordinates.

use vstd::prelude::*;

verus! {

/// An integer (x, y) position in raw device coordinate space.
///
/// Points are compared by squared Euclidean distance only; a true distance is
/// never needed on the event path.
#[derive(Clone, Copy, Debug, PartialEq, Eq, Structural)]
pub struct Point {
    pub x: i32,
    pub y: i32,
}

/// Squared Euclidean distance between two points, as an unbounded integer.
pub open spec fn spec_dist_sq(a: Point, b: Point) -> int {
    (a.x - b.x) * (a.x - b.x) + (a.y - b.y) * (a.y - b.y)
}

impl Default for Point {
    /// The origin.
    fn default() -> (r: Self)
        ensures
            r == (Point { x: 0, y: 0 }),
    {
        Point { x: 0, y: 0 }
    }
}

impl Point {
    /// Squared Euclidean distance from `self` to `other`.
    ///
    /// The result is computed in 128 bits: the squared distance of two
    /// arbitrary 32-bit points does not fit in 32 or 64 bits.
    pub fn dist_sq(&self, other: Self) -> (r: i128)
        ensures
            r == spec_dist_sq(*self, other),
    {
        let dx: i128 = self.x as i128 - other.x as i128;
        let dy: i128 = self.y as i128 - other.y as i128;
        proof {
            assert(0 <= dx * dx <= 0x1_0000_0000_0000_0000) by (nonlinear_arith)
                requires
                    -0x1_0000_0000 <= dx <= 0x1_0000_0000,
            ;
            assert(0 <= dy * dy <= 0x1_0000_0000_0000_0000) by (nonlinear_arith)
                requires
                    -0x1_0000_0000 <= dy <= 0x1_0000_0000,
            ;
        }
        dx * dx + dy * dy
    }
}

/// Per-edge margins, each expressed as a fraction of the axis range in
/// thousandths (so `left == 50` trims 5% of the x range off the left edge).
#[derive(Clone, Copy, Debug, Default, PartialEq, Eq, Structural)]
pub struct Margins {
    pub top: u32,
    pub bottom: u32,
    pub left: u32,
    pub right: u32,
}

impl Margins {
    /// Each margin is a fraction of the axis range, so at most the whole
    /// range (1000 thousandths).
    pub open spec fn spec_wf(self) -> bool {
        self.top <= 1000 && self.bottom <= 1000 && self.left <= 1000 && self.right <= 1000
    }
}

/// An axis-aligned rectangle in device coordinates with inclusive bounds.
///
/// Well-formed boxes have `min <= max` on both axes. A box produced by
/// `disjoint_dummy`, or by margins that sum to more than the whole range on
/// an axis, may have inverted bounds; such a box contains no point, which is
/// exactly the intent.
#[derive(Clone, Copy, Debug, PartialEq, Eq, Structural)]
pub struct BBox {
    pub minx: i32,
    pub maxx: i32,
    pub miny: i32,
    pub maxy: i32,
}

impl BBox {
    /// `min <= max` on both axes.
    pub open spec fn spec_wf(self) -> bool {
        self.minx <= self.maxx && self.miny <= self.maxy
    }

    pub open spec fn spec_xrange(self) -> int {
        self.maxx - self.minx
    }

    pub open spec fn spec_yrange(self) -> int {
        self.maxy - self.miny
    }

    /// Inclusive containment on both axes.
    pub open spec fn spec_contains(self, pos: Point) -> bool {
        self.minx <= pos.x <= self.maxx && self.miny <= pos.y <= self.maxy
    }

    /// The box that `apply_margins` returns: each edge moved inward by the
    /// margin's fraction of the original axis range.
    pub open spec fn spec_shrunk(self, m: Margins) -> BBox {
        BBox {
            minx: (self.minx + m.left * self.spec_xrange() / 1000) as i32,
            maxx: (self.maxx - m.right * self.spec_xrange() / 1000) as i32,
            miny: (self.miny + m.top * self.spec_yrange() / 1000) as i32,
            maxy: (self.maxy - m.bottom * self.spec_yrange() / 1000) as i32,
        }
    }

    /// The box that `disjoint_dummy` returns, just past the maximum corner.
    pub open spec fn spec_dummy(self) -> BBox {
        BBox {
            minx: (self.maxx + 1) as i32,
            maxx: (self.maxx + 2) as i32,
            miny: (self.maxy + 1) as i32,
            maxy: (self.maxy + 2) as i32,
        }
    }

    pub fn new(minx: i32, maxx: i32, miny: i32, maxy: i32) -> (r: Self)
        ensures
            r == (BBox { minx, maxx, miny, maxy }),
    {
        Self { minx, maxx, miny, maxy }
    }

    /// Width of the box; 64 bits, since the difference of two arbitrary
    /// 32-bit bounds does not fit in 32 bits.
    pub fn xrange(&self) -> (r: i64)
        ensures
            r == self.spec_xrange(),
    {
        self.maxx as i64 - self.minx as i64
    }

    /// Height of the box.
    pub fn yrange(&self) -> (r: i64)
        ensures
            r == self.spec_yrange(),
    {
        self.maxy as i64 - self.miny as i64
    }

    /// A new box whose edges are moved inward by `margin / 1000 * range`,
    /// each margin applied to the *original* axis range, once.
    ///
    /// Margins summing to 1000 or more on one axis may invert that axis'
    /// bounds; the resulting box then contains no point. This is accepted
    /// behaviour, used deliberately for degenerate zones.
    pub fn apply_margins(&self, margins: Margins) -> (r: Self)
        requires
            self.spec_wf(),
            margins.spec_wf(),
        ensures
            r == self.spec_shrunk(margins),
            r.minx == self.minx + margins.left * self.spec_xrange() / 1000,
            r.maxx == self.maxx - margins.right * self.spec_xrange() / 1000,
            r.miny == self.miny + margins.top * self.spec_yrange() / 1000,
            r.maxy == self.maxy - margins.bottom * self.spec_yrange() / 1000,
    {
        let xrange: i64 = self.xrange();
        let yrange: i64 = self.yrange();
        proof {
            lemma_margin_cut_in_range(margins.left as int, xrange as int);
            lemma_margin_cut_in_range(margins.right as int, xrange as int);
            lemma_margin_cut_in_range(margins.top as int, yrange as int);
            lemma_margin_cut_in_range(margins.bottom as int, yrange as int);
        }
        let minx: i64 = self.minx as i64 + margins.left as i64 * xrange / 1000;
        let maxx: i64 = self.maxx as i64 - margins.right as i64 * xrange / 1000;
        let miny: i64 = self.miny as i64 + margins.top as i64 * yrange / 1000;
        let maxy: i64 = self.maxy as i64 - margins.bottom as i64 * yrange / 1000;
        BBox { minx: minx as i32, maxx: maxx as i32, miny: miny as i32, maxy: maxy as i32 }
    }

    /// A box guaranteed not to intersect `self`, placed just past its
    /// maximum corner. Used as the stand-in for zones a hardware model
    /// does not have, so that they can never match a real touch point.
    pub fn disjoint_dummy(&self) -> (r: Self)
        requires
            self.maxx <= i32::MAX - 2,
            self.maxy <= i32::MAX - 2,
        ensures
            r == self.spec_dummy(),
            forall|p: Point| #[trigger] self.spec_contains(p) ==> !r.spec_contains(p),
    {
        Self {
            minx: self.maxx + 1,
            maxx: self.maxx + 2,
            miny: self.maxy + 1,
            maxy: self.maxy + 2,
        }
    }

    /// Inclusive-bounds containment test.
    pub fn contains(&self, pos: Point) -> (r: bool)
        ensures
            r == self.spec_contains(pos),
    {
        (self.minx <= pos.x && pos.x <= self.maxx) && (self.miny <= pos.y && pos.y <= self.maxy)
    }
}

/// A margin of at most the whole range cuts off at least nothing and at most
/// the whole range.
proof fn lemma_margin_cut_in_range(m: int, range: int)
    requires
        0 <= m <= 1000,
        0 <= range,
    ensures
        0 <= m * range / 1000 <= range,
{
    assert(0 <= m * range / 1000 <= range) by (nonlinear_arith)
        requires
            0 <= m <= 1000,
            0 <= range,
    ;
}

/// Trimming by all-zero margins returns the original bounds exactly.
pub proof fn lemma_zero_margins_identity(b: BBox, m: Margins)
    requires
        b.spec_wf(),
        m == (Margins { top: 0, bottom: 0, left: 0, right: 0 }),
    ensures
        b.spec_shrunk(m) == b,
{
}

} // verus!
