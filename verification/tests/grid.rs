use color_viewer::error::RenderError;
use color_viewer::grid::{GridLayoutOptimizer, GridShape, MAX_SWATCH_COUNT};

/// The cost formula the optimizer minimizes, written out independently.
fn cost(a: usize, b: usize, count: usize) -> usize {
    5 * (a * b - count) + a.abs_diff(b).pow(2)
}

/// The cost-minimizing pair by direct scan, ties to the smallest row count.
fn brute_force(count: usize) -> (usize, usize) {
    let mut best: Option<(usize, usize, usize)> = None;
    for a in 1..=count.div_ceil(2) {
        let b = count.div_ceil(a);
        let c = cost(a, b, count);
        match best {
            Some((_, _, bc)) if bc <= c => {}
            _ => best = Some((a, b, c)),
        }
    }
    let (a, b, _) = best.unwrap();
    (a, b)
}

#[test]
fn compute_one_is_unit_grid() {
    assert_eq!(
        GridLayoutOptimizer::compute(1),
        Ok(GridShape { rows: 1, cols: 1 })
    );
}

#[test]
fn compute_zero_is_invalid_count() {
    assert_eq!(
        GridLayoutOptimizer::compute(0),
        Err(RenderError::InvalidCount { count: 0 })
    );
}

#[test]
fn compute_above_maximum_is_invalid_count() {
    let count = MAX_SWATCH_COUNT + 1;
    assert_eq!(
        GridLayoutOptimizer::compute(count),
        Err(RenderError::InvalidCount { count })
    );
}

#[test]
fn compute_twenty_minimizes_cost() {
    let shape = GridLayoutOptimizer::compute(20).unwrap();
    assert_eq!((shape.rows, shape.cols), brute_force(20));
    assert_eq!((shape.rows, shape.cols), (4, 5));
}

#[test]
fn compute_matches_brute_force_up_to_two_hundred() {
    for count in 1..=200 {
        let shape = GridLayoutOptimizer::compute(count).unwrap();
        let (a, b) = brute_force(count);
        assert_eq!((shape.rows, shape.cols), (a, b), "count {count}");
        assert!(shape.rows * shape.cols >= count, "count {count}");
    }
}

#[test]
fn grid_always_holds_the_count() {
    for count in [1, 2, 3, 5, 7, 20, 99, 1000, MAX_SWATCH_COUNT] {
        let shape = GridLayoutOptimizer::compute(count).unwrap();
        assert!(shape.rows * shape.cols >= count, "count {count}");
        assert!(shape.rows >= 1 && shape.cols >= 1, "count {count}");
    }
}
