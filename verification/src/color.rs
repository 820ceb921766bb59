//! The colour model: 8-bit RGB triples and the palette distance.
//!
//! The palette distance between two colours is the Euclidean distance between
//! them as points in RGB space. Every comparison the library makes is of the
//! form `distance < threshold` with a non-negative integer threshold, and the
//! square root is strictly monotonic, so the library works throughout with the
//! squared distance, which stays in integer arithmetic:
//! `distance < threshold` holds exactly when
//! `distance_squared < threshold * threshold`.

use vstd::prelude::*;

verus! {

/// An 8-bit RGB colour. Equality is component-wise.
#[derive(Clone, Copy, Debug, PartialEq, Eq, Structural)]
pub struct RGB2 {
    pub r: u8,
    pub g: u8,
    pub b: u8,
}

/// The square of an integer.
pub open spec fn sq(x: int) -> int {
    x * x
}

/// The squared Euclidean distance between two colours in RGB space.
pub open spec fn dist_sq(a: RGB2, b: RGB2) -> int {
    sq(a.r - b.r) + sq(a.g - b.g) + sq(a.b - b.b)
}

proof fn lemma_sq_neg(x: int)
    by (nonlinear_arith)
    ensures
        sq(x) == sq(-x),
        sq(x) >= 0,
{
}

/// The largest value `dist_sq` can take: three components, each off by 255.
pub proof fn lemma_dist_sq_bound(a: RGB2, b: RGB2)
    ensures
        0 <= dist_sq(a, b) <= 3 * 255 * 255,
{
    assert(0 <= sq(a.r - b.r) <= 255 * 255) by (nonlinear_arith);
    assert(0 <= sq(a.g - b.g) <= 255 * 255) by (nonlinear_arith);
    assert(0 <= sq(a.b - b.b) <= 255 * 255) by (nonlinear_arith);
}

/// The palette distance is symmetric and non-negative, and the distance from
/// a colour to itself is zero. The same holds of the Euclidean distance
/// itself, since the square root is monotonic and maps zero to zero.
pub proof fn lemma_distance_properties(a: RGB2, b: RGB2)
    ensures
        dist_sq(a, b) == dist_sq(b, a),
        dist_sq(a, b) >= 0,
        dist_sq(a, a) == 0,
{
    lemma_sq_neg(a.r - b.r);
    lemma_sq_neg(a.g - b.g);
    lemma_sq_neg(a.b - b.b);
}

impl RGB2 {
    /// Packs three channel values into a colour.
    pub fn new(r: u8, g: u8, b: u8) -> (c: RGB2)
        ensures
            c == (RGB2 { r, g, b }),
    {
        RGB2 { r, g, b }
    }

    /// The squared palette distance from `self` to `other`.
    pub fn distance_squared(&self, other: &RGB2) -> (d: u32)
        ensures
            d == dist_sq(*self, *other),
    {
        let dr: u32 = if self.r >= other.r {
            (self.r - other.r) as u32
        } else {
            (other.r - self.r) as u32
        };
        let dg: u32 = if self.g >= other.g {
            (self.g - other.g) as u32
        } else {
            (other.g - self.g) as u32
        };
        let db: u32 = if self.b >= other.b {
            (self.b - other.b) as u32
        } else {
            (other.b - self.b) as u32
        };
        assert((dr * dr) as int == (self.r - other.r) * (self.r - other.r) && dr * dr <= 255 * 255)
            by (nonlinear_arith)
            requires
                dr == self.r - other.r || dr == other.r - self.r,
                dr <= 255,
        ;
        assert((dg * dg) as int == (self.g - other.g) * (self.g - other.g) && dg * dg <= 255 * 255)
            by (nonlinear_arith)
            requires
                dg == self.g - other.g || dg == other.g - self.g,
                dg <= 255,
        ;
        assert((db * db) as int == (self.b - other.b) * (self.b - other.b) && db * db <= 255 * 255)
            by (nonlinear_arith)
            requires
                db == self.b - other.b || db == other.b - self.b,
                db <= 255,
        ;
        dr * dr + dg * dg + db * db
    }
}

} // verus!
