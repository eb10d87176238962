//! Grid layout of the metric charts.
use vstd::prelude::*;

verus! {

/// Grid layout configuration.
#[derive(Debug, Clone, PartialEq, Eq, Structural)]
pub struct GridLayout {
    pub rows: usize,
    pub cols: usize,
}

/// `a / b` rounded up.
pub open spec fn ceil_div(a: nat, b: nat) -> nat
    recommends
        b > 0,
{
    if a % b == 0 {
        a / b
    } else {
        a / b + 1
    }
}

/// The layout of a scrollable grid: `metrics_per_row` columns and as many rows as
/// the visible metrics fill; a single cell when nothing is visible.
pub fn calculate_scrollable_grid_layout(visible_metric_count: usize, metrics_per_row: usize) -> (res: GridLayout)
    requires
        visible_metric_count == 0 || metrics_per_row > 0,
    ensures
        visible_metric_count == 0 ==> res == (GridLayout { rows: 1, cols: 1 }),
        visible_metric_count > 0 ==> res.cols == metrics_per_row && res.rows == ceil_div(
            visible_metric_count as nat,
            metrics_per_row as nat,
        ),
{
    if visible_metric_count == 0 {
        return GridLayout { rows: 1, cols: 1 };
    }
    let cols = metrics_per_row;
    let rows = if visible_metric_count % cols == 0 {
        visible_metric_count / cols
    } else {
        proof {
            let v = visible_metric_count as int;
            let c = cols as int;
            assert(c >= 2) by {
                if c == 1 {
                    assert(v % 1 == 0);
                }
            }
            assert(v / c + 1 <= v) by (nonlinear_arith)
                requires v >= 1, c >= 2;
        }
        visible_metric_count / cols + 1
    };
    GridLayout { rows, cols }
}

/// The grid has a cell for every visible metric and no row left empty.
pub proof fn lemma_grid_fits_metrics(count: nat, per_row: nat)
    requires
        count > 0,
        per_row > 0,
    ensures
        ceil_div(count, per_row) * per_row >= count,
        (ceil_div(count, per_row) - 1) * per_row < count,
{
    let q = count / per_row;
    let r = count % per_row;
    assert(count == per_row * q + r && 0 <= r < per_row) by (nonlinear_arith)
        requires per_row > 0, q == count / per_row, r == count % per_row;
    if r == 0 {
        assert(q * per_row == count) by (nonlinear_arith)
            requires count == per_row * q + r, r == 0;
        assert((q - 1) * per_row < count) by (nonlinear_arith)
            requires q * per_row == count, per_row > 0;
    } else {
        assert((q + 1) * per_row >= count) by (nonlinear_arith)
            requires count == per_row * q + r, r < per_row, per_row > 0;
        assert(q * per_row < count) by (nonlinear_arith)
            requires count == per_row * q + r, r > 0;
    }
}

} // verus!
