use sketch_model::blend::{blend_modes, caption_is_light, pick_blend_mode, pick_index, BlendMode};
use sketch_model::circles::{pattern, pattern_size_at, Circle};
use sketch_model::fractions::{
    ngon_vertex_color, ring_luminance, span_fraction, wave_vertex_color, UnitFrac,
};
use sketch_model::geometry::Rect;
use sketch_model::wave::{quad_triangles, sample_position, strip_slices, Tri};

#[test]
fn rect_measures() {
    let r = Rect::new(-320, 320, -240, 240);
    assert_eq!(r.w(), 640);
    assert_eq!(r.h(), 480);
    assert_eq!(r.min_side(), 480);
    assert_eq!(r.center(), (0, 0));
}

#[test]
fn rect_center_rounds_toward_lower_edge() {
    let r = Rect::new(0, 5, 0, 3);
    assert_eq!(r.center(), (2, 1));
}

#[test]
fn quadrants_split_at_center() {
    let r = Rect::new(-8, 8, -4, 4);
    let qs = r.quadrants();
    assert_eq!(qs.len(), 4);
    assert_eq!(qs[0], Rect { left: -8, right: 0, bottom: -4, top: 0 });
    assert_eq!(qs[1], Rect { left: 0, right: 8, bottom: -4, top: 0 });
    assert_eq!(qs[2], Rect { left: -8, right: 0, bottom: 0, top: 4 });
    assert_eq!(qs[3], Rect { left: 0, right: 8, bottom: 0, top: 4 });
}

#[test]
fn three_rounds_of_subdivision_make_sixty_four_cells() {
    let r = Rect::new(-512, 512, -512, 512);
    assert_eq!(r.subdivide(0).len(), 1);
    assert_eq!(r.subdivide(1).len(), 4);
    assert_eq!(r.subdivide(2).len(), 16);
    let cells = r.subdivide(3);
    assert_eq!(cells.len(), 64);
    for c in &cells {
        assert!(r.left <= c.left && c.right <= r.right);
        assert!(r.bottom <= c.bottom && c.top <= r.top);
        assert_eq!(c.right - c.left, 128);
        assert_eq!(c.top - c.bottom, 128);
    }
}

#[test]
fn subdivision_conserves_area() {
    // Odd side lengths split unevenly, yet the cells' areas still sum to
    // exactly the parent's area.
    let r = Rect::new(-3, 98, 5, 38);
    let mut sum: i64 = 0;
    for c in r.subdivide(2) {
        sum += (c.right - c.left) * (c.top - c.bottom);
    }
    assert_eq!(sum, 101 * 33);
}

#[test]
fn arrow_reach_clamps_to_half_cell() {
    let cell = Rect::new(0, 100, 0, 60);
    assert_eq!(cell.arrow_reach(10), 10);
    assert_eq!(cell.arrow_reach(30), 30);
    assert_eq!(cell.arrow_reach(31), 30);
    assert_eq!(cell.arrow_reach(1000), 30);
}

#[test]
fn pattern_size_small_radii() {
    assert_eq!(pattern_size_at(0), 1);
    assert_eq!(pattern_size_at(8), 1);
    assert_eq!(pattern_size_at(9), 5);
    assert_eq!(pattern_size_at(16), 5);
    assert_eq!(pattern_size_at(17), 5);
    assert_eq!(pattern_size_at(18), 21);
}

#[test]
fn pattern_size_full_depth() {
    // 360 halves through 180, 90, 45, 22, 11 before reaching 5 <= 8.
    assert_eq!(pattern_size_at(360), 5461);
}

#[test]
fn pattern_one_level() {
    let v = pattern(0, 0, 16);
    assert_eq!(v.len(), 5);
    assert_eq!(v[0], Circle { x: 0, y: 0, r: 16 });
    assert_eq!(v[1], Circle { x: 16, y: 0, r: 8 });
    assert_eq!(v[2], Circle { x: -16, y: 0, r: 8 });
    assert_eq!(v[3], Circle { x: 0, y: 16, r: 8 });
    assert_eq!(v[4], Circle { x: 0, y: -16, r: 8 });
}

#[test]
fn pattern_is_depth_first() {
    let v = pattern(100, -50, 20);
    assert_eq!(v.len(), 21);
    // The right sub-pattern is laid out in full before the left one starts.
    assert_eq!(v[0], Circle { x: 100, y: -50, r: 20 });
    assert_eq!(v[1], Circle { x: 120, y: -50, r: 10 });
    assert_eq!(v[2], Circle { x: 130, y: -50, r: 5 });
    assert_eq!(v[3], Circle { x: 110, y: -50, r: 5 });
    assert_eq!(v[4], Circle { x: 120, y: -40, r: 5 });
    assert_eq!(v[5], Circle { x: 120, y: -60, r: 5 });
    assert_eq!(v[6], Circle { x: 80, y: -50, r: 10 });
}

#[test]
fn pattern_stays_within_twice_the_radius() {
    for c in pattern(10, -20, 100) {
        assert!((c.x - 10).abs() <= 200);
        assert!((c.y + 20).abs() <= 200);
        assert!(c.r <= 100);
    }
}

#[test]
fn picked_index_descends_with_the_pointer() {
    let mut last: u64 = 0;
    for y in (-300..=300).rev() {
        let ix = pick_index(y, -300, 300, 6);
        assert!(ix >= last);
        last = ix;
    }
    assert_eq!(last, 5);
}

#[test]
fn unit_fraction_operations() {
    let f = UnitFrac::phase_of(2, 5);
    assert_eq!((f.num, f.den), (2, 5));
    let g = f.one_minus();
    assert_eq!((g.num, g.den), (3, 5));
    let s = f.add_wrapped(UnitFrac::new(4, 5));
    assert_eq!((s.num, s.den), (1, 5));
    let t = f.add_wrapped(UnitFrac::new(2, 5));
    assert_eq!((t.num, t.den), (4, 5));
}

#[test]
fn span_fractions_measure_progress() {
    let at_start = span_fraction(-400, -400, 400);
    assert_eq!((at_start.num, at_start.den), (0, 800));
    let at_quarter = span_fraction(-200, -400, 400);
    assert_eq!((at_quarter.num, at_quarter.den), (200, 800));
    let at_end = span_fraction(400, -400, 400);
    assert_eq!((at_end.num, at_end.den), (800, 800));
}

#[test]
fn ngon_colors_cycle() {
    // Vertex 2 of a 7-gon: red 2/7, green 5/7, blue (1/2 + 2/7) wrapped.
    let (r, g, b) = ngon_vertex_color(2, 7);
    assert_eq!((r.num, r.den), (4, 14));
    assert_eq!((g.num, g.den), (10, 14));
    assert_eq!((b.num, b.den), (11, 14));
    // Vertex 5 of 7: blue fraction 1/2 + 5/7 wraps past one to 3/14.
    let (_, _, b5) = ngon_vertex_color(5, 7);
    assert_eq!((b5.num, b5.den), (3, 14));
}

#[test]
fn wave_colors_shift_with_time() {
    // n = 10 vertices, denominators 20; time phase 13/20.
    let t = UnitFrac::new(13, 20);
    let (r, g, b) = wave_vertex_color(t, 3, 10);
    assert_eq!((r.num, r.den), (19, 20)); // 13 + 6 mod 20
    assert_eq!((g.num, g.den), (7, 20)); // 13 + 20 - 6 mod 20
    assert_eq!((b.num, b.den), (9, 20)); // 13 + 10 + 6 mod 20
}

#[test]
fn ring_luminances_ascend() {
    // Three rings brighten as (1/2)/3, (3/2)/3, (5/2)/3.
    let l0 = ring_luminance(0, 3);
    let l1 = ring_luminance(1, 3);
    let l2 = ring_luminance(2, 3);
    assert_eq!((l0.num, l0.den), (1, 6));
    assert_eq!((l1.num, l1.den), (3, 6));
    assert_eq!((l2.num, l2.den), (5, 6));
}

#[test]
fn blend_mode_order() {
    let modes = blend_modes();
    assert_eq!(
        modes,
        vec![
            BlendMode::Normal,
            BlendMode::Add,
            BlendMode::Subtract,
            BlendMode::ReverseSubtract,
            BlendMode::Darkest,
            BlendMode::Lightest,
        ]
    );
}

#[test]
fn pointer_height_picks_band() {
    // Six even bands over the span from top 300 down to bottom -300.
    assert_eq!(pick_index(300, -300, 300, 6), 0);
    assert_eq!(pick_index(201, -300, 300, 6), 0);
    assert_eq!(pick_index(200, -300, 300, 6), 1);
    assert_eq!(pick_index(0, -300, 300, 6), 3);
    assert_eq!(pick_index(-299, -300, 300, 6), 5);
    // The very bottom edge would fall just past the last band; it clamps.
    assert_eq!(pick_index(-300, -300, 300, 6), 5);
}

#[test]
fn pointer_height_picks_blend_mode() {
    assert_eq!(pick_blend_mode(300, -300, 300), BlendMode::Normal);
    assert_eq!(pick_blend_mode(150, -300, 300), BlendMode::Add);
    assert_eq!(pick_blend_mode(-300, -300, 300), BlendMode::Lightest);
}

#[test]
fn caption_flips_at_midpoint() {
    assert!(caption_is_light(-400, -400, 400));
    assert!(caption_is_light(-1, -400, 400));
    assert!(!caption_is_light(0, -400, 400));
    assert!(!caption_is_light(400, -400, 400));
}

#[test]
fn sample_positions_span_the_window() {
    // Ten samples over -450..450, as the wave polyline lays them out.
    assert_eq!(sample_position(0, 9, -450, 450), -450);
    assert_eq!(sample_position(3, 9, -450, 450), -150);
    assert_eq!(sample_position(9, 9, -450, 450), 450);
}

#[test]
fn sample_positions_round_toward_lo() {
    assert_eq!(sample_position(1, 3, 0, 10), 3);
    assert_eq!(sample_position(2, 3, 0, 10), 6);
}

#[test]
fn strip_slices_pair_neighbouring_samples() {
    let slices = strip_slices(4, 0, 100);
    assert_eq!(slices.len(), 4);
    assert_eq!(slices[0], (0, 25));
    assert_eq!(slices[1], (25, 50));
    assert_eq!(slices[2], (50, 75));
    assert_eq!(slices[3], (75, 100));
}

#[test]
fn quads_split_along_the_first_diagonal() {
    let (t0, t1) = quad_triangles((0, 5), (10, 7), (10, 0), (0, 0));
    assert_eq!(t0, Tri { v0: (0, 5), v1: (10, 7), v2: (10, 0) });
    assert_eq!(t1, Tri { v0: (0, 5), v1: (10, 0), v2: (0, 0) });
}
