//! Exact fractions in the unit interval. The sketches derive phases and
//! color channels by arithmetic on vertex indices — a vertex's phase around
//! a polygon is `i / n` of a turn, a channel cycles as `(t + i/n) mod 1` —
//! and this module carries those values as numerator/denominator pairs, so
//! the wrap-around arithmetic is exact instead of floating.

use vstd::prelude::*;

verus! {

/// Denominators stay at or below this bound, so sums of a few numerators
/// never overflow `u64`.
pub const MAX_DEN: u64 = 0x1_0000_0000;

/// A fraction `num / den` in the closed unit interval.
#[derive(Clone, Copy, Debug, PartialEq, Eq, Structural)]
pub struct UnitFrac {
    pub num: u64,
    pub den: u64,
}

impl UnitFrac {
    /// The denominator is positive and bounded and the value is in `[0, 1]`.
    pub open spec fn well_formed(self) -> bool {
        0 < self.den <= MAX_DEN && self.num <= self.den
    }

    pub fn new(num: u64, den: u64) -> (f: UnitFrac)
        requires
            0 < den <= MAX_DEN,
            num <= den,
        ensures
            f == (UnitFrac { num, den }),
            f.well_formed(),
    {
        UnitFrac { num, den }
    }

    /// The phase of vertex `i` of a regular `n`-gon: `i / n` of a turn.
    pub fn phase_of(i: u64, n: u64) -> (f: UnitFrac)
        requires
            0 < n <= MAX_DEN,
            i < n,
        ensures
            f.num == i,
            f.den == n,
            f.well_formed(),
    {
        UnitFrac { num: i, den: n }
    }

    /// `1 - self`: the fraction of the turn still to go.
    pub fn one_minus(self) -> (f: UnitFrac)
        requires
            self.well_formed(),
        ensures
            f.num == self.den - self.num,
            f.den == self.den,
            f.well_formed(),
    {
        UnitFrac { num: self.den - self.num, den: self.den }
    }

    /// `(self + other) mod 1`, for fractions over the same denominator:
    /// the wrap-around of one cycling channel past the end of the unit
    /// interval.
    pub fn add_wrapped(self, other: UnitFrac) -> (f: UnitFrac)
        requires
            self.well_formed(),
            other.well_formed(),
            other.den == self.den,
        ensures
            f.num == (self.num + other.num) % (self.den as int),
            f.den == self.den,
            f.num < f.den,
            f.well_formed(),
    {
        UnitFrac { num: (self.num + other.num) % self.den, den: self.den }
    }
}

/// How far `v` sits along the span from `lo` to `hi`, as an exact
/// fraction: `0` at `lo`, `1` at `hi`. The sketches use this to turn a
/// pointer position into a background luminance and a circle radius into
/// a tint.
pub fn span_fraction(v: i64, lo: i64, hi: i64) -> (f: UnitFrac)
    requires
        lo < hi,
        lo <= v <= hi,
        hi - lo <= MAX_DEN,
    ensures
        f.num == v - lo,
        f.den == hi - lo,
        f.well_formed(),
{
    UnitFrac { num: (v - lo) as u64, den: (hi - lo) as u64 }
}

/// The color of vertex `i` of an `n`-gon whose vertices are tinted by
/// their fraction `i / n` of the way around: red is the fraction itself,
/// green its complement, and blue the fraction offset by half a turn,
/// wrapped. All three come out over the denominator `2 * n`.
pub fn ngon_vertex_color(i: u64, n: u64) -> (c: (UnitFrac, UnitFrac, UnitFrac))
    requires
        0 < n,
        2 * n <= MAX_DEN,
        i < n,
    ensures
        c.0.num == 2 * i && c.1.num == 2 * n - 2 * i && c.2.num == (n + 2 * i) % (2 * n),
        c.0.den == 2 * n && c.1.den == 2 * n && c.2.den == 2 * n,
        c.0.well_formed() && c.1.well_formed() && c.2.well_formed(),
{
    let den: u64 = 2 * n;
    let r = UnitFrac { num: 2 * i, den };
    let g = UnitFrac { num: den - 2 * i, den };
    let b = UnitFrac { num: (n + 2 * i) % den, den };
    (r, g, b)
}

/// The color of vertex `i` of an `n`-point wave polyline at time phase `t`
/// (a fraction of one cycle, over the denominator `2 * n`): each channel is
/// the time phase shifted by the vertex fraction `i / n` — red by the
/// fraction, green by its complement, blue by the fraction plus half a
/// cycle — wrapped back into the unit interval.
pub fn wave_vertex_color(t: UnitFrac, i: u64, n: u64) -> (c: (UnitFrac, UnitFrac, UnitFrac))
    requires
        t.well_formed(),
        0 < n,
        t.den == 2 * n,
        i < n,
    ensures
        c.0.num == (t.num + 2 * i) % (2 * n),
        c.1.num == (t.num + 2 * n - 2 * i) % (2 * n),
        c.2.num == (t.num + n + 2 * i) % (2 * n),
        c.0.den == 2 * n && c.1.den == 2 * n && c.2.den == 2 * n,
        c.0.well_formed() && c.1.well_formed() && c.2.well_formed(),
{
    let den: u64 = 2 * n;
    let r = UnitFrac { num: (t.num + 2 * i) % den, den };
    let g = UnitFrac { num: (t.num + den - 2 * i) % den, den };
    let b = UnitFrac { num: (t.num + n + 2 * i) % den, den };
    (r, g, b)
}

/// The luminance of ring `i` of `n` concentric rings that brighten from
/// the centre out: `(i + 1/2) / n`, the midpoint of the ring's share.
pub fn ring_luminance(i: u64, n: u64) -> (f: UnitFrac)
    requires
        0 < n,
        2 * n <= MAX_DEN,
        i < n,
    ensures
        f.num == 2 * i + 1,
        f.den == 2 * n,
        f.well_formed(),
{
    UnitFrac { num: 2 * i + 1, den: 2 * n }
}

} // verus!
