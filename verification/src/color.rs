//! RGB colours and the squared-Euclidean distance between them.

use vstd::prelude::*;

verus! {

/// Largest distance two colours can have: `3 * 255 * 255`.
pub const MAX_DISTANCE: u32 = 195_075;

/// An RGB triple, one unsigned byte of intensity per channel.
#[derive(Clone, Copy, Debug, PartialEq, Eq, Structural)]
pub struct Color {
    pub r: u8,
    pub g: u8,
    pub b: u8,
}

/// Absolute difference of two channel intensities.
pub open spec fn channel_gap(a: u8, b: u8) -> int {
    if a >= b {
        a - b
    } else {
        b - a
    }
}

impl Color {
    /// Squared-Euclidean distance in RGB space: the sum over the three
    /// channels of the squared absolute difference.
    pub open spec fn distance(self, other: Color) -> int {
        channel_gap(self.r, other.r) * channel_gap(self.r, other.r)
            + channel_gap(self.g, other.g) * channel_gap(self.g, other.g)
            + channel_gap(self.b, other.b) * channel_gap(self.b, other.b)
    }

    pub fn new(r: u8, g: u8, b: u8) -> (c: Color)
        ensures
            c.r == r,
            c.g == g,
            c.b == b,
    {
        Color { r, g, b }
    }

    /// Squared-Euclidean distance between `self` and `rhs`.
    pub fn abs_diff(&self, rhs: &Self) -> (d: u32)
        ensures
            d == self.distance(*rhs),
            d <= MAX_DISTANCE,
            d == 0 <==> *self == *rhs,
    {
        let dr: u32 = squared_gap(self.r, rhs.r);
        let dg: u32 = squared_gap(self.g, rhs.g);
        let db: u32 = squared_gap(self.b, rhs.b);
        proof {
            distance_zero_iff_equal(*self, *rhs);
        }
        dr + dg + db
    }
}

/// Square of the absolute difference of two channel intensities.
fn squared_gap(a: u8, b: u8) -> (sq: u32)
    ensures
        sq == channel_gap(a, b) * channel_gap(a, b),
        sq <= 65_025,
{
    let gap: u32 = if a >= b {
        (a - b) as u32
    } else {
        (b - a) as u32
    };
    assert(gap * gap <= 65_025) by (nonlinear_arith)
        requires
            gap <= 255,
    ;
    gap * gap
}

/// The distance does not depend on the order of its arguments.
pub proof fn distance_symmetric(a: Color, b: Color)
    ensures
        a.distance(b) == b.distance(a),
{
}

/// The distance is zero exactly between a colour and itself.
pub proof fn distance_zero_iff_equal(a: Color, b: Color)
    ensures
        a.distance(b) == 0 <==> a == b,
{
    let dr = channel_gap(a.r, b.r);
    let dg = channel_gap(a.g, b.g);
    let db = channel_gap(a.b, b.b);
    assert(dr * dr >= 0 && (dr * dr == 0 <==> dr == 0)) by (nonlinear_arith);
    assert(dg * dg >= 0 && (dg * dg == 0 <==> dg == 0)) by (nonlinear_arith);
    assert(db * db >= 0 && (db * db == 0 <==> db == 0)) by (nonlinear_arith);
}

/// The distance lies between zero and `3 * 255 * 255`.
pub proof fn distance_bounded(a: Color, b: Color)
    ensures
        0 <= a.distance(b) <= MAX_DISTANCE,
        MAX_DISTANCE == 3 * 255 * 255,
{
    let dr = channel_gap(a.r, b.r);
    let dg = channel_gap(a.g, b.g);
    let db = channel_gap(a.b, b.b);
    assert(0 <= dr * dr <= 65_025) by (nonlinear_arith)
        requires
            0 <= dr <= 255,
    ;
    assert(0 <= dg * dg <= 65_025) by (nonlinear_arith)
        requires
            0 <= dg <= 255,
    ;
    assert(0 <= db * db <= 65_025) by (nonlinear_arith)
        requires
            0 <= db <= 255,
    ;
}

} // verus!
