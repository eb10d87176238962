//! The metrics screen of a selected resource: its header, the time panels and
//! the metrics grid, or an error or loading message in their place.
use vstd::prelude::*;
use crate::display_utils::{calculate_time_panel_width, spec_time_panel_width};
use crate::layout::{layout_split, spec_split, Constraint, Direction, Rect};
use crate::models::{App, TimeRangeMode};

verus! {

broadcast use vstd::string::group_string_axioms;

/// What the body of the metrics screen shows.
#[derive(Debug)]
pub enum SummaryBody {
    /// The application's error message, in an error box titled "Error"
    Error(String),
    /// "Loading metrics..."
    Loading,
    /// The time panels beside the metrics grid
    Panels,
}

/// What the body of the metrics screen shows: the error message when there is
/// one, else the loading message while metrics load, else the panels.
pub fn summary_body(app: &App) -> (res: SummaryBody)
    ensures
        match app.error_message {
            Some(m) => res matches SummaryBody::Error(e) && e@ == m@,
            None => if app.metrics_loading {
                res is Loading
            } else {
                res is Panels
            },
        },
{
    match &app.error_message {
        Some(m) => SummaryBody::Error(m.clone()),
        None => {
            if app.metrics_loading {
                SummaryBody::Loading
            } else {
                SummaryBody::Panels
            }
        },
    }
}

/// The rows of the screen: a header of four rows, the body, and a control line.
pub open spec fn screen_rows() -> Seq<Constraint> {
    seq![Constraint::Length(4), Constraint::Min(0), Constraint::Length(1)]
}

/// The header, body and control areas of the screen.
pub fn summary_areas(area: Rect) -> (res: (Rect, Rect, Rect))
    ensures
        res.0 == spec_split(Direction::Vertical, screen_rows(), area)[0],
        res.1 == spec_split(Direction::Vertical, screen_rows(), area)[1],
        res.2 == spec_split(Direction::Vertical, screen_rows(), area)[2],
{
    let rows = vec![Constraint::Length(4), Constraint::Min(0), Constraint::Length(1)];
    assert(rows@ =~= screen_rows());
    let parts = layout_split(Direction::Vertical, &rows, area);
    (parts[0], parts[1], parts[2])
}

/// The columns of the body: the time panels, as wide as the terminal width
/// calls for, and the metrics grid in the rest.
pub open spec fn body_columns(width: u16) -> Seq<Constraint> {
    seq![Constraint::Length(spec_time_panel_width(width)), Constraint::Min(0)]
}

/// The rows of the time panels: the time range on top, ten rows of periods,
/// six rows of time zones.
pub open spec fn time_panel_rows() -> Seq<Constraint> {
    seq![Constraint::Min(0), Constraint::Length(10), Constraint::Length(6)]
}

/// The panels of the body: the time-range, period and time-zone panels, and
/// the metrics grid.
pub struct BodyPanels {
    pub time_range: Rect,
    pub period: Rect,
    pub timezone: Rect,
    pub metrics: Rect,
}

/// The panels of the body area.
pub fn body_panels(body: Rect) -> (res: BodyPanels)
    ensures
        ({
            let cols = spec_split(Direction::Horizontal, body_columns(body.width), body);
            let rows = spec_split(Direction::Vertical, time_panel_rows(), cols[0]);
            &&& res.time_range == rows[0]
            &&& res.period == rows[1]
            &&& res.timezone == rows[2]
            &&& res.metrics == cols[1]
        }),
{
    let width = calculate_time_panel_width(body.width);
    let cols = vec![Constraint::Length(width), Constraint::Min(0)];
    assert(cols@ =~= body_columns(body.width));
    let columns = layout_split(Direction::Horizontal, &cols, body);
    let rows = vec![Constraint::Min(0), Constraint::Length(10), Constraint::Length(6)];
    assert(rows@ =~= time_panel_rows());
    let panels = layout_split(Direction::Vertical, &rows, columns[0]);
    BodyPanels { time_range: panels[0], period: panels[1], timezone: panels[2], metrics: columns[1] }
}

/// The control line, naming the time-range mode.
pub fn summary_controls_text(mode: TimeRangeMode) -> (res: String)
    ensures
        res@ == "Up/Down: Navigate • Tab: Switch Panels • t: Change Theme ("@ + (match mode {
            TimeRangeMode::Absolute => "Absolute"@,
            TimeRangeMode::Relative => "Relative"@,
        }) + ") • Enter: Select • r: Refresh • b/Esc: Back • q: Quit"@,
{
    let mode_text = match mode {
        TimeRangeMode::Absolute => "Absolute",
        TimeRangeMode::Relative => "Relative",
    };
    let mut res = "Up/Down: Navigate • Tab: Switch Panels • t: Change Theme (".to_owned();
    res.append(mode_text);
    res.append(") • Enter: Select • r: Refresh • b/Esc: Back • q: Quit");
    res
}

} // verus!
