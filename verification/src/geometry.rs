//! Axis-aligned canvas rectangles in integer units, with the recursive
//! quadrant subdivision used by the arrow-grid sketch. A rectangle is kept by
//! its four edges; all edges stay within `COORD_BOUND`, so every derived
//! quantity (width, height, centre, subdivision cells) fits comfortably in
//! `i64` arithmetic.

use vstd::prelude::*;

verus! {

/// Every edge coordinate of a well-formed rectangle lies in
/// `[-COORD_BOUND, COORD_BOUND]`.
pub const COORD_BOUND: i64 = 0x8000_0000;

/// An axis-aligned rectangle on the canvas, in integer units.
/// `left <= right` and `bottom <= top`; the y axis points up, as on the
/// canvas the sketches draw to.
#[derive(Clone, Copy, Debug, PartialEq, Eq, Structural)]
pub struct Rect {
    pub left: i64,
    pub right: i64,
    pub bottom: i64,
    pub top: i64,
}

/// The summed area of a sequence of rectangles.
pub open spec fn total_area(cells: Seq<Rect>) -> int
    decreases cells.len(),
{
    if cells.len() == 0 {
        0
    } else {
        cells.first().area() + total_area(cells.drop_first())
    }
}

/// Splitting a sequence of rectangles splits its summed area.
proof fn lemma_total_area_concat(s: Seq<Rect>, t: Seq<Rect>)
    ensures
        total_area(s + t) == total_area(s) + total_area(t),
    decreases s.len(),
{
    if s.len() == 0 {
        assert(s + t =~= t);
    } else {
        assert((s + t).drop_first() =~= s.drop_first() + t);
        lemma_total_area_concat(s.drop_first(), t);
    }
}

/// 4^depth: the number of cells a rectangle splits into after `depth`
/// rounds of quadrant subdivision.
pub open spec fn pow4(depth: nat) -> nat
    decreases depth,
{
    if depth == 0 {
        1
    } else {
        4 * pow4((depth - 1) as nat)
    }
}

impl Rect {
    /// Edges are ordered and bounded, so widths, heights and midpoints
    /// never overflow `i64`.
    pub open spec fn well_formed(self) -> bool {
        &&& -COORD_BOUND <= self.left <= self.right <= COORD_BOUND
        &&& -COORD_BOUND <= self.bottom <= self.top <= COORD_BOUND
    }

    /// Horizontal midpoint, rounded towards the left edge.
    pub open spec fn mid_x(self) -> int {
        self.left + (self.right - self.left) / 2
    }

    /// Vertical midpoint, rounded towards the bottom edge.
    pub open spec fn mid_y(self) -> int {
        self.bottom + (self.top - self.bottom) / 2
    }

    /// The rectangle's area: width times height.
    pub open spec fn area(self) -> int {
        (self.right - self.left) * (self.top - self.bottom)
    }

    /// `inner` lies entirely within `self`.
    pub open spec fn contains(self, inner: Rect) -> bool {
        &&& self.left <= inner.left
        &&& inner.right <= self.right
        &&& self.bottom <= inner.bottom
        &&& inner.top <= self.top
    }

    pub fn new(left: i64, right: i64, bottom: i64, top: i64) -> (r: Rect)
        requires
            -COORD_BOUND <= left <= right <= COORD_BOUND,
            -COORD_BOUND <= bottom <= top <= COORD_BOUND,
        ensures
            r == (Rect { left, right, bottom, top }),
            r.well_formed(),
    {
        Rect { left, right, bottom, top }
    }

    pub fn w(&self) -> (w: i64)
        requires
            self.well_formed(),
        ensures
            w == self.right - self.left,
            0 <= w,
    {
        self.right - self.left
    }

    pub fn h(&self) -> (h: i64)
        requires
            self.well_formed(),
        ensures
            h == self.top - self.bottom,
            0 <= h,
    {
        self.top - self.bottom
    }

    /// The shorter of width and height: the side of the largest square
    /// that fits in the rectangle.
    pub fn min_side(&self) -> (s: i64)
        requires
            self.well_formed(),
        ensures
            s == if self.right - self.left <= self.top - self.bottom {
                self.right - self.left
            } else {
                self.top - self.bottom
            },
            0 <= s,
    {
        let w: i64 = self.w();
        let h: i64 = self.h();
        if w <= h {
            w
        } else {
            h
        }
    }

    /// Centre of the rectangle, each axis rounded towards the lower edge.
    pub fn center(&self) -> (c: (i64, i64))
        requires
            self.well_formed(),
        ensures
            c.0 == self.mid_x(),
            c.1 == self.mid_y(),
    {
        let cx: i64 = self.left + (self.right - self.left) / 2;
        let cy: i64 = self.bottom + (self.top - self.bottom) / 2;
        (cx, cy)
    }

    /// The arrow drawn from a cell's centre reaches towards the pointer,
    /// but never further than half the cell's shorter side.
    pub fn arrow_reach(&self, dist_to_pointer: u64) -> (m: u64)
        requires
            self.well_formed(),
        ensures
            m == if dist_to_pointer <= self.min_side_spec() / 2 {
                dist_to_pointer as int
            } else {
                self.min_side_spec() / 2
            },
    {
        let half: i64 = self.min_side() / 2;
        if dist_to_pointer <= half as u64 {
            dist_to_pointer
        } else {
            half as u64
        }
    }

    /// The shorter side, as `min_side` returns it.
    pub open spec fn min_side_spec(self) -> int {
        if self.right - self.left <= self.top - self.bottom {
            self.right - self.left
        } else {
            self.top - self.bottom
        }
    }

    /// The four quadrants of `self`, split at its centre: bottom-left,
    /// bottom-right, top-left, top-right.
    pub open spec fn quadrants_spec(self) -> Seq<Rect> {
        let mx: i64 = self.mid_x() as i64;
        let my: i64 = self.mid_y() as i64;
        seq![
            Rect { left: self.left, right: mx, bottom: self.bottom, top: my },
            Rect { left: mx, right: self.right, bottom: self.bottom, top: my },
            Rect { left: self.left, right: mx, bottom: my, top: self.top },
            Rect { left: mx, right: self.right, bottom: my, top: self.top },
        ]
    }

    /// The four quadrants carve the parent up without loss or overlap:
    /// their areas sum to exactly the parent's area, whether or not the
    /// sides split evenly.
    pub proof fn lemma_quadrants_area(self)
        requires
            self.well_formed(),
        ensures
            total_area(self.quadrants_spec()) == self.area(),
    {
        let qs = self.quadrants_spec();
        assert(qs.drop_first().drop_first().drop_first().drop_first() =~= Seq::<Rect>::empty());
        assert(total_area(Seq::<Rect>::empty()) == 0);
        assert(total_area(qs.drop_first().drop_first().drop_first()) == qs[3].area()
            + total_area(qs.drop_first().drop_first().drop_first().drop_first()));
        assert(total_area(qs.drop_first().drop_first()) == qs[2].area() + total_area(
            qs.drop_first().drop_first().drop_first(),
        ));
        assert(total_area(qs.drop_first()) == qs[1].area() + total_area(
            qs.drop_first().drop_first(),
        ));
        assert(total_area(qs) == qs[0].area() + total_area(qs.drop_first()));
        assert(self.left <= self.mid_x() <= self.right);
        assert(self.bottom <= self.mid_y() <= self.top);
        let mx: i64 = self.mid_x() as i64;
        let my: i64 = self.mid_y() as i64;
        assert(mx == self.mid_x() && my == self.mid_y());
        let w1: int = mx - self.left;
        let w2: int = self.right - mx;
        let h1: int = my - self.bottom;
        let h2: int = self.top - my;
        assert(qs[0].area() == w1 * h1);
        assert(qs[1].area() == w2 * h1);
        assert(qs[2].area() == w1 * h2);
        assert(qs[3].area() == w2 * h2);
        assert(total_area(qs) == w1 * h1 + (w2 * h1 + (w1 * h2 + (w2 * h2 + 0))));
        assert(w1 * h1 + w2 * h1 + w1 * h2 + w2 * h2 == (w1 + w2) * (h1 + h2))
            by (nonlinear_arith);
    }

    pub fn quadrants(&self) -> (qs: Vec<Rect>)
        requires
            self.well_formed(),
        ensures
            qs@ == self.quadrants_spec(),
            forall|i: int|
                0 <= i < 4 ==> (#[trigger] qs@[i]).well_formed() && self.contains(qs@[i]),
    {
        let (mx, my): (i64, i64) = self.center();
        let qs: Vec<Rect> = vec![
            Rect { left: self.left, right: mx, bottom: self.bottom, top: my },
            Rect { left: mx, right: self.right, bottom: self.bottom, top: my },
            Rect { left: self.left, right: mx, bottom: my, top: self.top },
            Rect { left: mx, right: self.right, bottom: my, top: self.top },
        ];
        proof {
            assert(qs@ =~= self.quadrants_spec());
        }
        qs
    }

    /// `depth` rounds of quadrant subdivision: every cell is well formed and
    /// lies within `self`, there are exactly `pow4(depth)` of them, and
    /// together they carve up exactly the parent's area.
    pub fn subdivide(&self, depth: u32) -> (cells: Vec<Rect>)
        requires
            self.well_formed(),
            pow4(depth as nat) <= usize::MAX,
        ensures
            cells@.len() == pow4(depth as nat),
            forall|i: int|
                0 <= i < cells@.len() ==> (#[trigger] cells@[i]).well_formed()
                    && self.contains(cells@[i]),
            total_area(cells@) == self.area(),
        decreases depth,
    {
        if depth == 0 {
            let cells: Vec<Rect> = vec![*self];
            proof {
                assert(cells@.drop_first() =~= Seq::<Rect>::empty());
                assert(total_area(Seq::<Rect>::empty()) == 0);
            }
            cells
        } else {
            let qs: Vec<Rect> = self.quadrants();
            let mut cells: Vec<Rect> = Vec::new();
            proof {
                assert(pow4(depth as nat) == 4 * pow4((depth - 1) as nat));
                assert(0 * pow4((depth - 1) as nat) == 0) by (nonlinear_arith);
            }
            for q_idx in 0..qs.len()
                invariant
                    qs@.len() == 4,
                    qs@ == self.quadrants_spec(),
                    forall|i: int|
                        0 <= i < 4 ==> (#[trigger] qs@[i]).well_formed() && self.contains(
                            qs@[i],
                        ),
                    self.well_formed(),
                    pow4(depth as nat) <= usize::MAX,
                    pow4(depth as nat) == 4 * pow4((depth - 1) as nat),
                    depth >= 1,
                    cells@.len() == q_idx * pow4((depth - 1) as nat),
                    forall|i: int|
                        0 <= i < cells@.len() ==> (#[trigger] cells@[i]).well_formed()
                            && self.contains(cells@[i]),
                    total_area(cells@) == total_area(qs@.take(q_idx as int)),
            {
                proof {
                    assert(q_idx as int * pow4((depth - 1) as nat) + pow4((depth - 1) as nat)
                        <= 4 * pow4((depth - 1) as nat)) by (nonlinear_arith)
                        requires
                            0 <= q_idx < 4,
                            pow4((depth - 1) as nat) >= 0,
                    ;
                }
                let q: Rect = qs[q_idx];
                let mut sub: Vec<Rect> = q.subdivide(depth - 1);
                proof {
                    lemma_total_area_concat(cells@, sub@);
                    lemma_total_area_concat(qs@.take(q_idx as int), seq![qs@[q_idx as int]]);
                    assert(seq![qs@[q_idx as int]].drop_first() =~= Seq::<Rect>::empty());
                    assert(total_area(Seq::<Rect>::empty()) == 0);
                    assert(total_area(seq![qs@[q_idx as int]]) == qs@[q_idx as int].area());
                    assert(qs@.take(q_idx as int + 1) =~= qs@.take(q_idx as int) + seq![
                        qs@[q_idx as int],
                    ]);
                    assert(total_area(qs@.take(q_idx as int + 1)) == total_area(
                        qs@.take(q_idx as int),
                    ) + qs@[q_idx as int].area());
                }
                cells.append(&mut sub);
                proof {
                    assert(total_area(cells@) == total_area(qs@.take(q_idx as int + 1)));
                }
                proof {
                    assert((q_idx as int + 1) * pow4((depth - 1) as nat) == q_idx as int * pow4(
                        (depth - 1) as nat,
                    ) + pow4((depth - 1) as nat)) by (nonlinear_arith);
                }
            }
            proof {
                assert(qs@.take(4) =~= self.quadrants_spec());
                self.lemma_quadrants_area();
            }
            cells
        }
    }
}

} // verus!
