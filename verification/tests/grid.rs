use cloudwatch_tui::charts::grid_layout::{calculate_scrollable_grid_layout, GridLayout as ScrollGrid};
use cloudwatch_tui::charts::types::{ChartMode, GridLayout};
use cloudwatch_tui::components::metric_list_utils::{calculate_2x2_grid_layout, MetricGridLayout};

#[test]
fn scrollable_grid_rows_round_up() {
    assert_eq!(calculate_scrollable_grid_layout(0, 2), ScrollGrid { rows: 1, cols: 1 });
    assert_eq!(calculate_scrollable_grid_layout(0, 0), ScrollGrid { rows: 1, cols: 1 });
    assert_eq!(calculate_scrollable_grid_layout(4, 2), ScrollGrid { rows: 2, cols: 2 });
    assert_eq!(calculate_scrollable_grid_layout(5, 2), ScrollGrid { rows: 3, cols: 2 });
    assert_eq!(calculate_scrollable_grid_layout(1, 3), ScrollGrid { rows: 1, cols: 3 });
    assert_eq!(calculate_scrollable_grid_layout(usize::MAX, 1), ScrollGrid { rows: usize::MAX, cols: 1 });
}

#[test]
fn scrollable_grid_fits_every_metric_without_empty_rows() {
    for count in 1..50usize {
        for per_row in 1..7usize {
            let g = calculate_scrollable_grid_layout(count, per_row);
            assert!(g.rows * g.cols >= count);
            assert!((g.rows - 1) * g.cols < count);
        }
    }
}

#[test]
fn grid_cells() {
    let g = GridLayout::new(3, 4);
    assert_eq!(g.total_cells(), 12);
    assert_eq!(g.cell_position(0), (0, 0));
    assert_eq!(g.cell_position(5), (1, 1));
    assert_eq!(g.cell_position(11), (2, 3));
}

#[test]
fn grid_cells_are_distinct() {
    let g = GridLayout::new(5, 3);
    let mut seen = std::collections::HashSet::new();
    for i in 0..15 {
        assert!(seen.insert(g.cell_position(i)));
    }
}

#[test]
fn fixed_two_by_two_grid() {
    assert_eq!(calculate_2x2_grid_layout(), MetricGridLayout { rows: 2, cols: 2 });
    assert_ne!(ChartMode::Summary, ChartMode::Detail);
}
