//! The grid-layout optimizer: choosing rows and columns for a swatch count.
//!
//! For a count `n`, every candidate row count `a` from `1` to `ceil(n/2)` is
//! scanned with `b = ceil(n/a)` columns, and the pair minimizing
//! `5 * (a*b - n) + (a - b)^2` wins; ties go to the smallest `a`. The weight 5
//! on excess cells against 1 on the squared row/column gap prefers near-square
//! grids while tolerating a little wasted space.

use vstd::arithmetic::div_mod::lemma_fundamental_div_mod;
use vstd::prelude::*;

use crate::error::RenderError;

verus! {

/// Upper bound on a request's swatch count; larger counts are rejected as
/// `InvalidCount` and the bound keeps every cost computation far from
/// overflow.
pub const MAX_SWATCH_COUNT: usize = 10_000;

/// `ceil(count / a)` for positive `a`.
pub open spec fn ceil_div(count: int, a: int) -> int {
    (count + a - 1) / a
}

/// The cost of laying `count` swatches out on `a` rows of `ceil(count / a)`
/// columns: five per unused cell, plus the squared difference between row and
/// column counts.
pub open spec fn grid_cost(a: int, count: int) -> int {
    let b = ceil_div(count, a);
    5 * (a * b - count) + (a - b) * (a - b)
}

/// A grid layout: `rows * cols` cells for the count it was derived from.
#[derive(Debug, Clone, Copy, PartialEq, Eq, Structural)]
pub struct GridShape {
    pub rows: usize,
    pub cols: usize,
}

impl GridShape {
    /// A shape fits `count` swatches: both sides positive and enough cells.
    pub open spec fn fits(self, count: int) -> bool {
        1 <= self.rows && 1 <= self.cols && self.rows * self.cols >= count
    }
}

/// Columns and cost for candidate row count `a`: `b = ceil(count / a)`, and
/// the number of cells `a * b` lands in `[count, count + a - 1]`.
fn cost_for(a: usize, count: usize) -> (r: (usize, usize))
    requires
        1 <= a <= count,
        count <= MAX_SWATCH_COUNT,
    ensures
        r.0 == ceil_div(count as int, a as int),
        r.1 == grid_cost(a as int, count as int),
        1 <= r.0 <= count,
        count <= a * r.0 <= count + a - 1,
{
    let b: usize = (count + a - 1) / a;
    proof {
        lemma_fundamental_div_mod((count + a - 1) as int, a as int);
        let rem = ((count + a - 1) as int) % (a as int);
        assert(count <= a * b && a * b <= count + a - 1 && 1 <= b && b <= count)
            by (nonlinear_arith)
            requires
                (count + a - 1) as int == (a as int) * (b as int) + rem,
                0 <= rem < a,
                1 <= a <= count,
        ;
    }
    let excess: usize = a * b - count;
    let diff: usize = if a >= b {
        a - b
    } else {
        b - a
    };
    assert(diff * diff <= 400_000_000 && (diff as int) * (diff as int) == ((a as int) - (
    b as int)) * ((a as int) - (b as int))) by (nonlinear_arith)
        requires
            diff <= 20_000,
            diff == a - b || diff == b - a,
    ;
    let cost: usize = 5 * excess + diff * diff;
    (b, cost)
}

/// Scans every candidate row count from `1` to `ceil(count / 2)` and returns
/// the `(rows, cols)` pair of least [`grid_cost`], the smallest such row count
/// on a tie.
pub fn rows_and_cols_for_count(count: usize) -> (r: (usize, usize))
    requires
        1 <= count <= MAX_SWATCH_COUNT,
    ensures
        1 <= r.0 <= ceil_div(count as int, 2),
        r.1 == ceil_div(count as int, r.0 as int),
        count <= r.0 * r.1,
        forall|j: int|
            1 <= j <= ceil_div(count as int, 2) ==> grid_cost(r.0 as int, count as int) <= #[trigger] grid_cost(j, count as int),
        forall|j: int| 1 <= j < r.0 ==> #[trigger] grid_cost(j, count as int) > grid_cost(r.0 as int, count as int),
{
    let half: usize = (count + 1) / 2;
    let first = cost_for(1, count);
    let mut best_a: usize = 1;
    let mut best_b: usize = first.0;
    let mut best_cost: usize = first.1;
    let mut a: usize = 2;
    while a <= half
        invariant
            1 <= count <= MAX_SWATCH_COUNT,
            half == ceil_div(count as int, 2),
            2 <= a <= half + 1,
            1 <= best_a < a,
            best_a <= half,
            best_b == ceil_div(count as int, best_a as int),
            best_cost == grid_cost(best_a as int, count as int),
            count <= best_a * best_b,
            forall|j: int| 1 <= j < a ==> #[trigger] grid_cost(j, count as int) >= best_cost,
            forall|j: int| 1 <= j < best_a ==> #[trigger] grid_cost(j, count as int) > best_cost,
        decreases half + 1 - a,
    {
        let candidate = cost_for(a, count);
        if candidate.1 < best_cost {
            best_a = a;
            best_b = candidate.0;
            best_cost = candidate.1;
        }
        a = a + 1;
    }
    (best_a, best_b)
}

/// The grid-layout optimizer of the pipeline.
pub struct GridLayoutOptimizer;

impl GridLayoutOptimizer {
    /// Chooses the grid for `count` swatches: the cost-minimizing
    /// `(rows, cols)` pair with ties broken toward fewer rows. Counts outside
    /// `[1, MAX_SWATCH_COUNT]` are rejected with `InvalidCount`.
    pub fn compute(count: usize) -> (r: Result<GridShape, RenderError>)
        ensures
            match r {
                Ok(shape) => 1 <= count <= MAX_SWATCH_COUNT && shape.fits(count as int) && 1
                    <= shape.rows <= ceil_div(count as int, 2) && shape.cols == ceil_div(
                    count as int,
                    shape.rows as int,
                ) && (forall|j: int|
                    1 <= j <= ceil_div(count as int, 2) ==> grid_cost(
                        shape.rows as int,
                        count as int,
                    ) <= #[trigger] grid_cost(j, count as int)) && (forall|j: int|
                    1 <= j < shape.rows ==> #[trigger] grid_cost(j, count as int) > grid_cost(
                        shape.rows as int,
                        count as int,
                    )),
                Err(e) => !(1 <= count <= MAX_SWATCH_COUNT) && e == (RenderError::InvalidCount {
                    count,
                }),
            },
    {
        if count == 0 || count > MAX_SWATCH_COUNT {
            return Err(RenderError::InvalidCount { count });
        }
        let (rows, cols) = rows_and_cols_for_count(count);
        Ok(GridShape { rows, cols })
    }
}

} // verus!
