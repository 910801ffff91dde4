use procgen_types::discrete::{Boolean, Byte, Nibble};
use procgen_types::point_sets::{
    random_ring_sizes, ring_slots, sum_of_sizes, CountedLayout, FixedLayout, GridLayout,
    GridSample, PointLayout, RingGrowth, RingSlot,
};
use procgen_types::util::DeterministicRng;

fn n(v: u8) -> Nibble {
    Nibble::new(v)
}

#[test]
fn uniform_grid_of_two_by_two_has_four_samples() {
    let grid = GridLayout::Uniform { x_count: n(1), y_count: n(1) };
    let samples = grid.samples();
    assert_eq!(
        samples,
        vec![
            GridSample { column: 0, row: 0, quarters: 2 },
            GridSample { column: 0, row: 1, quarters: 2 },
            GridSample { column: 1, row: 0, quarters: 2 },
            GridSample { column: 1, row: 1, quarters: 2 },
        ]
    );
    // In the unit square these are the four points at plus and minus one half.
    let columns = grid.columns() as f32;
    let rows = grid.rows() as f32;
    let mut points = Vec::new();
    for s in samples.iter() {
        let x = 2.0 * (s.column as f32 / columns + (s.quarters as f32 / 4.0) / columns) - 1.0;
        let y = 2.0 * (s.row as f32 / rows + 0.5 / rows) - 1.0;
        points.push((x, y));
    }
    assert_eq!(points, vec![(-0.5, -0.5), (-0.5, 0.5), (0.5, -0.5), (0.5, 0.5)]);
}

#[test]
fn uniform_and_tri_grids_sample_every_cell() {
    for x in 0..16u8 {
        for y in 0..16u8 {
            let uniform = GridLayout::Uniform { x_count: n(x), y_count: n(y) };
            let tri = GridLayout::Tri { x_count: n(x), y_count: n(y) };
            let want = (x as usize + 1) * (y as usize + 1);
            assert_eq!(uniform.samples().len(), want);
            assert_eq!(tri.samples().len(), want);
        }
    }
}

#[test]
fn tri_grid_staggers_its_rows() {
    let tri = GridLayout::Tri { x_count: n(0), y_count: n(2) };
    assert_eq!(
        tri.samples(),
        vec![
            GridSample { column: 0, row: 0, quarters: 1 },
            GridSample { column: 0, row: 1, quarters: 3 },
            GridSample { column: 0, row: 2, quarters: 1 },
        ]
    );
}

#[test]
fn sparse_grid_rounds_up_to_odd_and_strikes_cells() {
    let grid = GridLayout::Sparse {
        x_count: n(1),
        y_count: n(2),
        x_mod: Boolean::new(true),
        y_mod: Boolean::new(false),
    };
    assert_eq!(grid.columns(), 3);
    assert_eq!(grid.rows(), 3);
    // Column 1 loses its even rows.
    assert_eq!(
        grid.samples(),
        vec![
            GridSample { column: 0, row: 0, quarters: 2 },
            GridSample { column: 0, row: 1, quarters: 2 },
            GridSample { column: 0, row: 2, quarters: 2 },
            GridSample { column: 1, row: 1, quarters: 2 },
            GridSample { column: 2, row: 0, quarters: 2 },
            GridSample { column: 2, row: 1, quarters: 2 },
            GridSample { column: 2, row: 2, quarters: 2 },
        ]
    );
}

#[test]
fn sparse_grid_counts_match_the_formula() {
    for x in 0..16u8 {
        for y in 0..16u8 {
            for xm in [false, true] {
                for ym in [false, true] {
                    let grid = GridLayout::Sparse {
                        x_count: n(x),
                        y_count: n(y),
                        x_mod: Boolean::new(xm),
                        y_mod: Boolean::new(ym),
                    };
                    let columns = grid.columns() as usize;
                    let rows = grid.rows() as usize;
                    let struck_columns = (columns + 1 - xm as usize) / 2;
                    let struck_rows = (rows + 1 - ym as usize) / 2;
                    let want = columns * rows - struck_columns * struck_rows;
                    let got = grid.samples().len();
                    assert_eq!(got, want);
                    assert!(got <= 256);
                    assert_eq!(got == 0, x == 0 && y == 0 && !xm && !ym);
                }
            }
        }
    }
}

#[test]
fn the_single_struck_cell_is_the_only_empty_grid() {
    let grid = GridLayout::Sparse {
        x_count: n(0),
        y_count: n(0),
        x_mod: Boolean::new(false),
        y_mod: Boolean::new(false),
    };
    assert_eq!(grid.samples().len(), 0);
}

#[test]
fn hex_grid_adjusts_its_extents_and_strikes_cells() {
    let grid = GridLayout::Hex { x_count: n(0), y_count: n(0) };
    assert_eq!(grid.columns(), 2);
    assert_eq!(grid.rows(), 2);
    assert_eq!(
        grid.samples(),
        vec![
            GridSample { column: 0, row: 1, quarters: 3 },
            GridSample { column: 1, row: 0, quarters: 1 },
        ]
    );
    let largest = GridLayout::Hex { x_count: n(15), y_count: n(15) };
    assert_eq!(largest.columns(), 17);
    assert_eq!(largest.rows(), 16);
    assert_eq!(largest.samples().len(), 176);
}

#[test]
fn hex_grid_counts_match_the_formula() {
    for x in 0..16u8 {
        for y in 0..16u8 {
            let grid = GridLayout::Hex { x_count: n(x), y_count: n(y) };
            let columns = grid.columns() as usize;
            let rows = grid.rows() as usize;
            assert_eq!(columns % 3, 2);
            assert_eq!(rows % 2, 0);
            let want = columns * rows - (columns - columns / 3) * (rows / 2);
            let got = grid.samples().len();
            assert_eq!(got, want);
            assert!(1 <= got && got <= 256);
        }
    }
}

#[test]
fn fibonacci_rings_under_a_budget_of_twelve() {
    // Sizes 1, 1, 2, 3; the running totals after the first ring are 1, 3, 6, 11, 19.
    assert_eq!(RingGrowth::Fibonacci.ring_sizes(Byte::new(12)), vec![1, 1, 2, 3]);
    assert_eq!(RingGrowth::Fibonacci.ring_sizes(Byte::new(11)), vec![1, 1, 2, 3]);
    assert_eq!(RingGrowth::Fibonacci.ring_sizes(Byte::new(10)), vec![1, 1, 2]);
}

#[test]
fn linear_rings_alternate_between_two_progressions() {
    let growth = RingGrowth::Linear { ring_size_delta: n(3) };
    // next sizes 3, 4, 6, 7, ... with running totals 3, 7, 13, 20, 29
    assert_eq!(growth.ring_sizes(Byte::new(20)), vec![1, 3, 4, 6]);
}

#[test]
fn linear_rings_without_growth_hold_empty_rings() {
    let growth = RingGrowth::Linear { ring_size_delta: n(0) };
    assert_eq!(growth.ring_sizes(Byte::new(2)), vec![1, 0, 1, 0, 1]);
}

#[test]
fn squared_rings_double_every_other_ring() {
    // next sizes 0, 2, 0, 4, 0, 8, 0, 16 with running totals 0, 2, 2, 6, 6, 14, 14, 30
    assert_eq!(RingGrowth::Squared.ring_sizes(Byte::new(14)), vec![1, 0, 2, 0, 4, 0, 8]);
    assert_eq!(RingGrowth::Squared.ring_sizes(Byte::new(13)), vec![1, 0, 2, 0, 4]);
}

#[test]
fn at_least_one_ring_is_kept() {
    let growth = RingGrowth::Linear { ring_size_delta: n(15) };
    assert_eq!(growth.ring_sizes(Byte::new(0)), vec![1]);
    assert_eq!(growth.ring_sizes(Byte::new(1)), vec![1]);
    // a budget of nothing counts as a budget of one
    assert_eq!(RingGrowth::Fibonacci.ring_sizes(Byte::new(0)), vec![1]);
    assert_eq!(RingGrowth::Fibonacci.ring_sizes(Byte::new(2)), vec![1]);
    assert_eq!(RingGrowth::Fibonacci.ring_sizes(Byte::new(3)), vec![1, 1]);
}

#[test]
fn ring_sequences_hold_between_one_and_256_points() {
    for max in 0..=255u8 {
        let mut all = vec![RingGrowth::Fibonacci, RingGrowth::Squared];
        for d in 0..16u8 {
            all.push(RingGrowth::Linear { ring_size_delta: n(d) });
        }
        for growth in all {
            let sizes = growth.ring_sizes(Byte::new(max));
            let total: usize = sizes.iter().map(|s| *s as usize).sum();
            assert!(1 <= total && total <= 256);
            assert_eq!(ring_slots(&sizes).len(), total);
        }
    }
}

#[test]
fn ring_slots_go_ring_after_ring() {
    assert_eq!(
        ring_slots(&vec![1, 0, 2]),
        vec![
            RingSlot { ring: 0, slot: 0, ring_size: 1 },
            RingSlot { ring: 2, slot: 0, ring_size: 2 },
            RingSlot { ring: 2, slot: 1, ring_size: 2 },
        ]
    );
}

#[test]
fn random_rings_have_sizes_from_one_to_sixteen() {
    let mut rng = DeterministicRng::from_seed([42; 16]);
    for max_rings in 0..16u8 {
        let sizes = random_ring_sizes(&mut rng, n(max_rings));
        assert_eq!(sizes.len(), max_rings as usize + 1);
        assert!(sizes.iter().all(|s| 1 <= *s && *s <= 16));
    }
}

#[test]
fn layouts_are_well_formed_when_their_counts_are_nibbles() {
    assert!(GridLayout::Hex { x_count: n(15), y_count: n(0) }.is_well_formed());
    assert!(!GridLayout::Tri { x_count: Nibble::new_unchecked(16), y_count: n(0) }.is_well_formed());
    assert!(!GridLayout::Uniform { x_count: n(3), y_count: Nibble::new_unchecked(99) }
        .is_well_formed());
    assert!(RingGrowth::Squared.is_well_formed());
    assert!(RingGrowth::Linear { ring_size_delta: n(15) }.is_well_formed());
    assert!(!RingGrowth::Linear { ring_size_delta: Nibble::new_unchecked(16) }.is_well_formed());
}

#[test]
fn the_point_count_of_each_layout() {
    assert_eq!(PointLayout::Fixed { layout: FixedLayout::Moore }.point_count(), 8);
    assert_eq!(PointLayout::Fixed { layout: FixedLayout::Origin }.point_count(), 1);
    let grid = GridLayout::Uniform { x_count: n(1), y_count: n(1) };
    assert_eq!(PointLayout::Grid { layout: grid }.point_count(), 4);
    let hex = GridLayout::Hex { x_count: n(15), y_count: n(15) };
    assert_eq!(PointLayout::Grid { layout: hex }.point_count(), 176);
    let struck = GridLayout::Sparse {
        x_count: n(0),
        y_count: n(0),
        x_mod: Boolean::new(false),
        y_mod: Boolean::new(false),
    };
    assert_eq!(PointLayout::Grid { layout: struck }.point_count(), 0);
    let poisson = PointLayout::Counted { layout: CountedLayout::Poisson, count: Byte::new(2) };
    assert_eq!(poisson.point_count(), 4);
    assert!(!poisson.is_exact());
    let spiral = PointLayout::Counted { layout: CountedLayout::Spiral, count: Byte::new(200) };
    assert_eq!(spiral.point_count(), 200);
    assert!(spiral.is_exact());
    let random = PointLayout::RandomRings { max_rings: n(15) };
    assert_eq!(random.point_count(), 256);
    assert!(!random.is_exact());
    let rings = PointLayout::Rings { growth: RingGrowth::Fibonacci, max_count: Byte::new(12) };
    assert_eq!(rings.point_count(), 7);
    assert!(rings.is_exact());
    assert!(rings.is_well_formed());
    assert!(!PointLayout::RandomRings { max_rings: Nibble::new_unchecked(16) }.is_well_formed());
}

#[test]
fn point_counts_agree_with_what_is_laid_out() {
    for max in [0u8, 1, 7, 100, 255] {
        for growth in [
            RingGrowth::Fibonacci,
            RingGrowth::Squared,
            RingGrowth::Linear { ring_size_delta: n(0) },
            RingGrowth::Linear { ring_size_delta: n(9) },
        ] {
            let sizes = growth.ring_sizes(Byte::new(max));
            let layout = PointLayout::Rings { growth, max_count: Byte::new(max) };
            assert_eq!(layout.point_count(), ring_slots(&sizes).len());
            assert_eq!(sum_of_sizes(&sizes), ring_slots(&sizes).len());
            assert!(1 <= layout.point_count() && layout.point_count() <= 256);
        }
    }
    let mut rng = DeterministicRng::from_seed([5; 16]);
    for max_rings in 0..16u8 {
        let sizes = random_ring_sizes(&mut rng, n(max_rings));
        let layout = PointLayout::RandomRings { max_rings: n(max_rings) };
        let total = sum_of_sizes(&sizes);
        assert!(max_rings as usize + 1 <= total && total <= layout.point_count());
    }
}
