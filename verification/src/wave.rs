//! The vertex schedule of the sine-wave sketches: evenly spaced sample
//! positions across the canvas, the left/right pairing of the slices of a
//! filled wave strip, and the diagonal split of each slice's quad into two
//! triangles. The wave's height at a sample is analog (the renderer takes a
//! sine); where each sample sits, how many slices there are and which
//! corners each triangle takes are exact, and are computed here.

use vstd::prelude::*;
use vstd::arithmetic::div_mod::{lemma_div_by_multiple, lemma_div_is_ordered};
use vstd::arithmetic::mul::{lemma_mul_inequality, lemma_mul_is_commutative, lemma_mul_upper_bound};
use crate::geometry::COORD_BOUND;

verus! {

/// The position of sample `i` of `steps + 1` evenly spaced samples from
/// `lo` to `hi`: `lo + (i * (hi - lo)) / steps`, rounded towards `lo`.
pub open spec fn sample_spec(i: int, steps: int, lo: int, hi: int) -> int {
    lo + (i * (hi - lo)) / steps
}

/// Where the `i`-th of `steps + 1` evenly spaced samples falls between
/// `lo` and `hi`. The first sample sits on `lo`, the last on `hi`.
pub fn sample_position(i: u64, steps: u64, lo: i64, hi: i64) -> (p: i64)
    requires
        1 <= steps <= COORD_BOUND,
        i <= steps,
        -COORD_BOUND <= lo <= hi <= COORD_BOUND,
    ensures
        p == sample_spec(i as int, steps as int, lo as int, hi as int),
        lo <= p <= hi,
        i == 0 ==> p == lo,
        i == steps ==> p == hi,
{
    let span: u64 = (hi - lo) as u64;
    proof {
        lemma_mul_upper_bound(i as int, COORD_BOUND as int, span as int, 2 * COORD_BOUND as int);
        lemma_mul_inequality(i as int, steps as int, span as int);
        lemma_div_is_ordered(
            i as int * span as int,
            steps as int * span as int,
            steps as int,
        );
        lemma_div_by_multiple(span as int, steps as int);
        lemma_mul_is_commutative(steps as int, span as int);
    }
    let q: u128 = (i as u128 * span as u128) / (steps as u128);
    lo + (q as i64)
}

/// Samples taken further along the span never move back: the sample
/// positions are monotone in the sample index.
pub proof fn lemma_sample_monotonic(i: int, j: int, steps: int, lo: int, hi: int)
    requires
        0 <= i <= j,
        1 <= steps,
        lo <= hi,
    ensures
        sample_spec(i, steps, lo, hi) <= sample_spec(j, steps, lo, hi),
{
    lemma_mul_inequality(i, j, hi - lo);
    lemma_div_is_ordered(i * (hi - lo), j * (hi - lo), steps);
}

/// A triangle by its three corners, in canvas units.
#[derive(Clone, Copy, Debug, PartialEq, Eq)]
pub struct Tri {
    pub v0: (i64, i64),
    pub v1: (i64, i64),
    pub v2: (i64, i64),
}

/// The two triangles of the quad `a, b, c, d` (corners in order around the
/// quad), split along the diagonal from `a` to `c`.
pub fn quad_triangles(a: (i64, i64), b: (i64, i64), c: (i64, i64), d: (i64, i64)) -> (pair: (
    Tri,
    Tri,
))
    ensures
        pair.0 == (Tri { v0: a, v1: b, v2: c }),
        pair.1 == (Tri { v0: a, v1: c, v2: d }),
{
    (Tri { v0: a, v1: b, v2: c }, Tri { v0: a, v1: c, v2: d })
}

/// The horizontal extent of every slice of a wave strip of `steps` slices
/// spanning `lo..hi`: slice `k` runs from sample `k` to sample `k + 1`.
pub fn strip_slices(steps: u64, lo: i64, hi: i64) -> (v: Vec<(i64, i64)>)
    requires
        1 <= steps <= COORD_BOUND,
        -COORD_BOUND <= lo <= hi <= COORD_BOUND,
    ensures
        v@.len() == steps,
        forall|k: int|
            0 <= k < v@.len() ==> (#[trigger] v@[k]).0 == sample_spec(
                k,
                steps as int,
                lo as int,
                hi as int,
            ) && v@[k].1 == sample_spec(k + 1, steps as int, lo as int, hi as int),
        forall|k: int|
            0 <= k < v@.len() - 1 ==> (#[trigger] v@[k]).1 == v@[k + 1].0,
{
    let mut v: Vec<(i64, i64)> = Vec::new();
    for i in 1..(steps + 1)
        invariant
            1 <= steps <= COORD_BOUND,
            -COORD_BOUND <= lo <= hi <= COORD_BOUND,
            v@.len() == i - 1,
            forall|k: int|
                0 <= k < v@.len() ==> (#[trigger] v@[k]).0 == sample_spec(
                    k,
                    steps as int,
                    lo as int,
                    hi as int,
                ) && v@[k].1 == sample_spec(k + 1, steps as int, lo as int, hi as int),
    {
        let l: i64 = sample_position(i - 1, steps, lo, hi);
        let r: i64 = sample_position(i, steps, lo, hi);
        v.push((l, r));
    }
    v
}

} // verus!
