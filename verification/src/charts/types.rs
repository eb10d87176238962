//! Layout and mode types shared by the chart renderers.
use vstd::prelude::*;
use crate::style::Color;

verus! {

/// Grid layout configuration for multiple charts.
#[derive(Debug, Clone, PartialEq, Eq, Structural)]
pub struct GridLayout {
    pub rows: usize,
    pub cols: usize,
}

impl GridLayout {
    pub fn new(rows: usize, cols: usize) -> (res: Self)
        ensures
            res.rows == rows,
            res.cols == cols,
    {
        GridLayout { rows, cols }
    }

    /// The number of cells of the grid.
    pub fn total_cells(&self) -> (res: usize)
        requires
            self.rows * self.cols <= usize::MAX,
        ensures
            res == self.rows * self.cols,
    {
        self.rows * self.cols
    }

    /// The (row, column) of the cell that the chart at `index` falls into, filling
    /// the grid row by row.
    pub fn cell_position(&self, index: usize) -> (res: (usize, usize))
        requires
            self.cols > 0,
        ensures
            res.0 == index / self.cols,
            res.1 == index % self.cols,
    {
        (index / self.cols, index % self.cols)
    }
}

/// Chart rendering mode.
#[derive(Debug, Clone, Copy, PartialEq, Eq, Structural)]
pub enum ChartMode {
    /// Small chart in grid view
    Summary,
    /// Large detailed chart
    Detail,
    /// High resolution chart with full features
    HighResolution,
}

/// Chart configuration for consistent rendering.
#[derive(Debug, Clone)]
pub struct ChartConfig {
    /// Chart title
    pub title: String,
    /// Chart color
    pub color: Color,
    /// Whether to show border
    pub show_border: bool,
    /// Whether chart is focused/selected
    pub is_focused: bool,
    /// Chart area padding
    pub padding: u16,
}

impl Default for ChartConfig {
    /// No title, blue, bordered, not focused, one cell of padding.
    fn default() -> (res: Self)
        ensures
            res.title@ == Seq::<char>::empty(),
            res.color == Color::Blue,
            res.show_border,
            !res.is_focused,
            res.padding == 1,
    {
        ChartConfig { title: String::new(), color: Color::Blue, show_border: true, is_focused: false, padding: 1 }
    }
}

/// Chart data container for metric visualization. Readings are `f64` bit
/// patterns; timestamps whole seconds after the Unix epoch.
#[derive(Debug, Clone)]
pub struct ChartData {
    /// Metric name
    pub name: String,
    /// Current value
    pub current_value: u64,
    /// Historical data points
    pub history: Vec<u64>,
    /// Timestamps for each data point
    pub timestamps: Vec<u64>,
    /// Display color
    pub color: Color,
    /// Formatted current value string
    pub formatted_value: String,
    /// Maximum value for scaling
    pub max_value: u64,
}

/// Chart render context containing all necessary information.
#[derive(Debug)]
pub struct ChartContext<'a> {
    pub data: &'a ChartData,
    pub config: &'a ChartConfig,
    pub mode: ChartMode,
    pub layout: Option<&'a GridLayout>,
    pub selected_index: Option<usize>,
}

impl<'a> ChartContext<'a> {
    /// A context for one chart, outside any grid.
    pub fn new(data: &'a ChartData, config: &'a ChartConfig, mode: ChartMode) -> (res: Self)
        ensures
            res.data == data,
            res.config == config,
            res.mode == mode,
            res.layout is None,
            res.selected_index is None,
    {
        ChartContext { data, config, mode, layout: None, selected_index: None }
    }

    /// The context placed in a grid, with the grid's selected chart.
    pub fn with_grid(self, layout: &'a GridLayout, selected_index: usize) -> (res: Self)
        ensures
            res.data == self.data,
            res.config == self.config,
            res.mode == self.mode,
            res.layout == Some(layout),
            res.selected_index == Some(selected_index),
    {
        ChartContext { layout: Some(layout), selected_index: Some(selected_index), ..self }
    }
}

/// Placing the charts row by row, the chart at `index` lands in the cell
/// `(index / cols, index % cols)`, and no two charts share a cell.
pub proof fn lemma_cell_positions_distinct(layout: GridLayout, i: usize, j: usize)
    requires
        layout.cols > 0,
        i != j,
    ensures
        (i / layout.cols, i % layout.cols) != (j / layout.cols, j % layout.cols),
{
    let c = layout.cols as int;
    assert(i == c * (i / layout.cols) + i % layout.cols) by (nonlinear_arith)
        requires c > 0, c == layout.cols;
    assert(j == c * (j / layout.cols) + j % layout.cols) by (nonlinear_arith)
        requires c > 0, c == layout.cols;
}

} // verus!
