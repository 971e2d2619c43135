//! The blend-demo sketch's two pointer-driven decisions: which of the six
//! color blend modes the vertical pointer position selects, and whether the
//! caption is drawn light or dark against the background luminance that the
//! horizontal pointer position sets.

use vstd::prelude::*;
use vstd::arithmetic::div_mod::{lemma_div_by_multiple, lemma_div_is_ordered};
use vstd::arithmetic::mul::{lemma_mul_inequality, lemma_mul_is_commutative, lemma_mul_upper_bound};
use crate::geometry::COORD_BOUND;

verus! {

/// The color blend modes the sketch cycles through, in the order they are
/// listed on screen, top to bottom.
#[derive(Clone, Copy, Debug, PartialEq, Eq, Structural)]
pub enum BlendMode {
    Normal,
    Add,
    Subtract,
    ReverseSubtract,
    Darkest,
    Lightest,
}

/// How many blend modes there are to pick from.
pub const BLEND_MODE_COUNT: u64 = 6;

/// The selection order of the blend modes, top to bottom.
pub open spec fn blend_order() -> Seq<BlendMode> {
    seq![
        BlendMode::Normal,
        BlendMode::Add,
        BlendMode::Subtract,
        BlendMode::ReverseSubtract,
        BlendMode::Darkest,
        BlendMode::Lightest,
    ]
}

/// All blend modes, in selection order.
pub fn blend_modes() -> (v: Vec<BlendMode>)
    ensures
        v@ == blend_order(),
{
    let v: Vec<BlendMode> = vec![
        BlendMode::Normal,
        BlendMode::Add,
        BlendMode::Subtract,
        BlendMode::ReverseSubtract,
        BlendMode::Darkest,
        BlendMode::Lightest,
    ];
    proof {
        assert(v@ =~= blend_order());
    }
    v
}

/// The index the pointer height `y` selects among `n` choices laid over
/// the span from `top` (index 0) down to `bottom` (just past the last
/// index), clamped to the last one.
pub open spec fn pick_spec(y: int, bottom: int, top: int, n: int) -> int {
    let raw: int = ((top - y) * n) / (top - bottom);
    if raw < n - 1 {
        raw
    } else {
        n - 1
    }
}

/// Which of `n` choices the pointer height selects: the span from `top`
/// down to `bottom` is divided evenly, the band containing `y` wins, and a
/// pointer on the very bottom edge still selects the last choice.
pub fn pick_index(y: i64, bottom: i64, top: i64, n: u64) -> (ix: u64)
    requires
        -COORD_BOUND <= bottom < top <= COORD_BOUND,
        bottom <= y <= top,
        0 < n <= COORD_BOUND,
    ensures
        ix == pick_spec(y as int, bottom as int, top as int, n as int),
        ix < n,
{
    let offset: u64 = (top - y) as u64;
    let span: u64 = (top - bottom) as u64;
    proof {
        lemma_mul_upper_bound(
            offset as int,
            2 * COORD_BOUND as int,
            n as int,
            COORD_BOUND as int,
        );
        lemma_mul_inequality(offset as int, span as int, n as int);
        lemma_div_is_ordered(offset as int * n as int, span as int * n as int, span as int);
        lemma_mul_is_commutative(span as int, n as int);
        lemma_div_by_multiple(n as int, span as int);
    }
    let raw: u128 = (offset as u128 * n as u128) / (span as u128);
    if raw < (n - 1) as u128 {
        raw as u64
    } else {
        n - 1
    }
}

/// Moving the pointer down never moves the selection back up: the picked
/// index is monotone in the pointer's descent.
pub proof fn lemma_pick_monotonic(y1: int, y2: int, bottom: int, top: int, n: int)
    requires
        bottom < top,
        y2 <= y1,
        0 < n,
    ensures
        pick_spec(y1, bottom, top, n) <= pick_spec(y2, bottom, top, n),
{
    lemma_mul_inequality(top - y1, top - y2, n);
    lemma_div_is_ordered((top - y1) * n, (top - y2) * n, top - bottom);
}

/// Which blend mode the pointer height selects, over the same spans.
pub fn pick_blend_mode(y: i64, bottom: i64, top: i64) -> (m: BlendMode)
    requires
        -COORD_BOUND <= bottom < top <= COORD_BOUND,
        bottom <= y <= top,
    ensures
        m == blend_order()[pick_spec(y as int, bottom as int, top as int, BLEND_MODE_COUNT as int)],
{
    let modes: Vec<BlendMode> = blend_modes();
    let ix: u64 = pick_index(y, bottom, top, BLEND_MODE_COUNT);
    modes[ix as usize]
}

/// Whether the caption is drawn light. The background luminance rises
/// linearly with the pointer from the left edge (black) to the right edge
/// (white), and the caption takes the opposite: light while the pointer is
/// in the left half of the span, dark from the midpoint on.
pub fn caption_is_light(x: i64, left: i64, right: i64) -> (light: bool)
    requires
        -COORD_BOUND <= left < right <= COORD_BOUND,
        left <= x <= right,
    ensures
        light <==> 2 * (x - left) < right - left,
{
    2 * (x - left) < right - left
}

} // verus!
