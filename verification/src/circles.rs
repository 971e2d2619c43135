//! The recursive circle pattern: a circle of radius `r` is drawn at a
//! centre, and while the radius is above a floor, four half-size circles are
//! laid out to its right, left, top and bottom. This module computes the
//! whole pattern — how deep the recursion goes, how many circles it draws,
//! and the centre and radius of every circle in drawing order.

use vstd::prelude::*;
use crate::geometry::COORD_BOUND;

verus! {

/// Recursion stops once the radius is at or below this floor, in the same
/// integer canvas units as the radius itself.
pub const CIRCLE_FLOOR: u64 = 8;

/// One circle of the pattern: its centre and radius in canvas units.
#[derive(Clone, Copy, Debug, PartialEq, Eq, Structural)]
pub struct Circle {
    pub x: i64,
    pub y: i64,
    pub r: u64,
}

impl View for Circle {
    type V = (int, int, int);

    open spec fn view(&self) -> (int, int, int) {
        (self.x as int, self.y as int, self.r as int)
    }
}

/// How many times the radius halves before it reaches the floor: the
/// depth of the recursion started at radius `r`.
pub open spec fn pattern_depth(r: nat) -> nat
    decreases r,
{
    if r > CIRCLE_FLOOR {
        1 + pattern_depth(r / 2)
    } else {
        0
    }
}

/// How many circles the pattern started at radius `r` contains: one for
/// the circle itself, plus four sub-patterns at half the radius while the
/// radius is above the floor.
pub open spec fn pattern_size(r: nat) -> nat
    decreases r,
{
    if r > CIRCLE_FLOOR {
        1 + 4 * pattern_size(r / 2)
    } else {
        1
    }
}

/// Every circle of the pattern centred at `(x, y)` with radius `r`, in
/// drawing order: the circle itself, then the right, left, upper and lower
/// sub-patterns in turn, each at half the radius.
pub open spec fn pattern_spec(x: int, y: int, r: nat) -> Seq<(int, int, int)>
    decreases r,
{
    let head = seq![(x, y, r as int)];
    if r > CIRCLE_FLOOR {
        head + pattern_spec(x + r, y, r / 2) + pattern_spec(x - r, y, r / 2) + pattern_spec(
            x,
            y + r,
            r / 2,
        ) + pattern_spec(x, y - r, r / 2)
    } else {
        head
    }
}

/// Mapping a value function over a concatenation maps it over each part.
proof fn lemma_map_values_concat<A, B>(s: Seq<A>, t: Seq<A>, f: spec_fn(A) -> B)
    ensures
        (s + t).map_values(f) == s.map_values(f) + t.map_values(f),
{
    assert((s + t).map_values(f) =~= s.map_values(f) + t.map_values(f));
}

/// The pattern holds exactly `pattern_size(r)` circles.
pub proof fn lemma_pattern_spec_len(x: int, y: int, r: nat)
    ensures
        pattern_spec(x, y, r).len() == pattern_size(r),
    decreases r,
{
    if r > CIRCLE_FLOOR {
        lemma_pattern_spec_len(x + r, y, r / 2);
        lemma_pattern_spec_len(x - r, y, r / 2);
        lemma_pattern_spec_len(x, y + r, r / 2);
        lemma_pattern_spec_len(x, y - r, r / 2);
    }
}

/// Three times the number of circles is one less than four to the power of
/// one more than the depth: the closed form of the recursion-tree size.
pub proof fn lemma_pattern_size_closed_form(r: nat)
    ensures
        3 * pattern_size(r) == 4 * crate::geometry::pow4(pattern_depth(r)) - 1,
    decreases r,
{
    if r > CIRCLE_FLOOR {
        lemma_pattern_size_closed_form(r / 2);
    }
}

/// Circle `c` (a centre and radius) sits within the square of margin
/// `2 * r` around `(x, y)`, and is no larger than `r`.
pub open spec fn within_reach(c: (int, int, int), x: int, y: int, r: nat) -> bool {
    &&& x - 2 * r <= c.0 <= x + 2 * r
    &&& y - 2 * r <= c.1 <= y + 2 * r
    &&& 0 <= c.2 <= r
}

/// The whole pattern stays close to its start: every circle's centre lies
/// within twice the starting radius of the starting centre, and no circle
/// outgrows the first. A canvas with that much margin holds the pattern.
pub proof fn lemma_pattern_within_reach(x: int, y: int, r: nat)
    ensures
        forall|k: int|
            0 <= k < pattern_spec(x, y, r).len() ==> within_reach(
                #[trigger] pattern_spec(x, y, r)[k],
                x,
                y,
                r,
            ),
    decreases r,
{
    if r > CIRCLE_FLOOR {
        let h = seq![(x, y, r as int)];
        let right = pattern_spec(x + r, y, r / 2);
        let left = pattern_spec(x - r, y, r / 2);
        let upper = pattern_spec(x, y + r, r / 2);
        let lower = pattern_spec(x, y - r, r / 2);
        lemma_pattern_within_reach(x + r, y, r / 2);
        lemma_pattern_within_reach(x - r, y, r / 2);
        lemma_pattern_within_reach(x, y + r, r / 2);
        lemma_pattern_within_reach(x, y - r, r / 2);
        assert(2 * (r / 2) <= r);
        let s = pattern_spec(x, y, r);
        assert forall|k: int| 0 <= k < s.len() implies within_reach(#[trigger] s[k], x, y, r) by {
            if k == 0 {
                assert(s[k] == h[0]);
            } else if k < 1 + right.len() {
                assert(s[k] == right[k - 1]);
                assert(within_reach(right[k - 1], x + r, y, r / 2));
            } else if k < 1 + right.len() + left.len() {
                assert(s[k] == left[k - 1 - right.len()]);
                assert(within_reach(left[k - 1 - right.len()], x - r, y, r / 2));
            } else if k < 1 + right.len() + left.len() + upper.len() {
                assert(s[k] == upper[k - 1 - right.len() - left.len()]);
                assert(within_reach(upper[k - 1 - right.len() - left.len()], x, y + r, r / 2));
            } else {
                assert(s[k] == lower[k - 1 - right.len() - left.len() - upper.len()]);
                assert(within_reach(
                    lower[k - 1 - right.len() - left.len() - upper.len()],
                    x,
                    y - r,
                    r / 2,
                ));
            }
        }
    }
}

/// The pattern grows like the fourth power of the depth, but the depth
/// only grows with the logarithm of the radius: the number of circles
/// stays within the square of the radius.
pub proof fn lemma_pattern_size_bound(r: nat)
    ensures
        pattern_size(r) <= 1 + r * r,
        r > CIRCLE_FLOOR ==> 3 * pattern_size(r) + 6 <= r * r,
    decreases r,
{
    if r > CIRCLE_FLOOR {
        lemma_pattern_size_bound(r / 2);
        assert(2 * (r / 2) <= r);
        assert(4 * ((r / 2) * (r / 2)) == (2 * (r / 2)) * (2 * (r / 2))) by (nonlinear_arith);
        assert((2 * (r / 2)) * (2 * (r / 2)) <= r * r) by (nonlinear_arith)
            requires
                0 <= 2 * (r / 2) <= r,
        ;
        if r / 2 <= CIRCLE_FLOOR {
            assert(r * r >= 9 * 9) by (nonlinear_arith)
                requires
                    r >= 9,
            ;
        }
    }
}

/// The number of circles the pattern started at radius `r` draws.
pub fn pattern_size_at(r: u64) -> (n: u64)
    requires
        r <= COORD_BOUND,
    ensures
        n == pattern_size(r as nat),
    decreases r,
{
    proof {
        lemma_pattern_size_bound(r as nat);
        lemma_pattern_size_bound((r / 2) as nat);
        assert((r / 2) as int * ((r / 2) as int) <= COORD_BOUND as int * (COORD_BOUND as int))
            by (nonlinear_arith)
            requires
                0 <= r / 2 <= COORD_BOUND,
        ;
    }
    if r > CIRCLE_FLOOR {
        1 + 4 * pattern_size_at(r / 2)
    } else {
        1
    }
}

/// Every circle of the pattern, in drawing order. The centres of the
/// sub-patterns started at `(x, y)` stay within twice the radius of the
/// start, so the bounds below keep all arithmetic on the canvas.
pub fn pattern(x: i64, y: i64, r: u64) -> (v: Vec<Circle>)
    requires
        -COORD_BOUND <= x - 2 * (r as int),
        x + 2 * (r as int) <= COORD_BOUND,
        -COORD_BOUND <= y - 2 * (r as int),
        y + 2 * (r as int) <= COORD_BOUND,
    ensures
        v@.map_values(|c: Circle| c@) == pattern_spec(x as int, y as int, r as nat),
        v@.len() == pattern_size(r as nat),
    decreases r,
{
    proof {
        lemma_pattern_spec_len(x as int, y as int, r as nat);
    }
    let mut v: Vec<Circle> = vec![Circle { x, y, r }];
    proof {
        assert(v@.map_values(|c: Circle| c@) =~= seq![(x as int, y as int, r as int)]);
    }
    if r > CIRCLE_FLOOR {
        let half: u64 = r / 2;
        let mut right: Vec<Circle> = pattern(x + (r as i64), y, half);
        let mut left: Vec<Circle> = pattern(x - (r as i64), y, half);
        let mut upper: Vec<Circle> = pattern(x, y + (r as i64), half);
        let mut lower: Vec<Circle> = pattern(x, y - (r as i64), half);
        proof {
            let f = |c: Circle| c@;
            lemma_map_values_concat(v@, right@, f);
            lemma_map_values_concat(v@ + right@, left@, f);
            lemma_map_values_concat(v@ + right@ + left@, upper@, f);
            lemma_map_values_concat(v@ + right@ + left@ + upper@, lower@, f);
        }
        v.append(&mut right);
        v.append(&mut left);
        v.append(&mut upper);
        v.append(&mut lower);
    }
    v
}

} // verus!
