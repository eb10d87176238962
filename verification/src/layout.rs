//! Screen areas and their division by the terminal UI library's layout solver.
use vstd::prelude::*;
use ratatui::layout::{Constraint as UiConstraint, Direction as UiDirection, Layout as UiLayout, Rect as UiRect};

verus! {

/// A rectangular area of the terminal, in cells.
#[derive(Debug, Clone, Copy, PartialEq, Eq, Structural)]
pub struct Rect {
    pub x: u16,
    pub y: u16,
    pub width: u16,
    pub height: u16,
}

/// A size constraint on one part of a divided area.
#[derive(Debug, Clone, Copy, PartialEq, Eq, Structural)]
pub enum Constraint {
    /// Exactly this many cells
    Length(u16),
    /// This percentage of the divided area
    Percentage(u16),
    /// At least this many cells
    Min(u16),
}

/// The axis along which an area is divided.
#[derive(Debug, Clone, Copy, PartialEq, Eq, Structural)]
pub enum Direction {
    Horizontal,
    Vertical,
}

/// The parts that the layout solver divides `area` into along `direction` under
/// `constraints`.
pub uninterp spec fn spec_split(direction: Direction, constraints: Seq<Constraint>, area: Rect) -> Seq<Rect>;

/// The parts of a division lie across the whole area: a horizontal division keeps
/// the area's rows, a vertical one its columns.
pub open spec fn spans_area(direction: Direction, area: Rect, part: Rect) -> bool {
    match direction {
        Direction::Horizontal => part.y == area.y && part.height == area.height,
        Direction::Vertical => part.x == area.x && part.width == area.width,
    }
}

/// Calls ratatui's `Layout::default().direction(..).constraints(..).split(area)`
/// (no margin, no spacing, default flex). The parts are what the layout solver
/// makes of the constraints, named `spec_split`; the source shows one part per
/// constraint, each spanning the area across the direction of division. ratatui
/// unwraps the solver's result; that fails only when required constraints conflict,
/// and the ones it adds (parts inside the area, in order) never do.
#[verifier::external_body]
pub(crate) fn layout_split(direction: Direction, constraints: &Vec<Constraint>, area: Rect) -> (res: Vec<Rect>)
    ensures
        res@ == spec_split(direction, constraints@, area),
        res@.len() == constraints@.len(),
        forall|i: int| 0 <= i < res@.len() ==> spans_area(direction, area, #[trigger] res@[i]),
{
    let dir = match direction {
        Direction::Horizontal => UiDirection::Horizontal,
        Direction::Vertical => UiDirection::Vertical,
    };
    let cs: Vec<UiConstraint> = constraints.iter().map(|c| match *c {
        Constraint::Length(n) => UiConstraint::Length(n),
        Constraint::Percentage(n) => UiConstraint::Percentage(n),
        Constraint::Min(n) => UiConstraint::Min(n),
    }).collect();
    let r = UiRect { x: area.x, y: area.y, width: area.width, height: area.height };
    let parts = UiLayout::default().direction(dir).constraints(cs).split(r);
    parts.iter().map(|p| Rect { x: p.x, y: p.y, width: p.width, height: p.height }).collect()
}

/// The middle part of `area` divided in three along `direction`.
pub open spec fn middle_part(direction: Direction, c: Seq<Constraint>, area: Rect) -> Rect {
    spec_split(direction, c, area)[1]
}

/// The three constraints that put a part of `size` cells in the middle of
/// `available` cells.
pub open spec fn centering_lengths(available: u16, size: u16) -> Seq<Constraint> {
    let margin = (if available >= size { (available - size) as u16 } else { 0u16 }) / 2;
    seq![Constraint::Length(margin), Constraint::Length(size), Constraint::Length(margin)]
}

/// The three constraints that put `percent` percent of an area in its middle.
pub open spec fn centering_percentages(percent: u16) -> Seq<Constraint> {
    seq![
        Constraint::Percentage(((100 - percent) / 2) as u16),
        Constraint::Percentage(percent),
        Constraint::Percentage(((100 - percent) / 2) as u16),
    ]
}

/// An area of `width` by `height` cells in the middle of `area`, as the layout
/// solver places it.
pub open spec fn spec_center_area(area: Rect, width: u16, height: u16) -> Rect {
    let band = middle_part(Direction::Vertical, centering_lengths(area.height, height), area);
    middle_part(Direction::Horizontal, centering_lengths(area.width, width), band)
}

/// Three constraints of fixed lengths centring `size` cells in `available`.
fn centering_constraints(available: u16, size: u16) -> (res: Vec<Constraint>)
    ensures
        res@ == centering_lengths(available, size),
{
    let margin = (if available >= size { available - size } else { 0 }) / 2;
    let res = vec![Constraint::Length(margin), Constraint::Length(size), Constraint::Length(margin)];
    assert(res@ =~= centering_lengths(available, size));
    res
}

/// Place an area of `width` by `height` cells in the middle of `area`: the
/// margins on either side are half of what is left, in each direction.
pub fn center_area(area: Rect, width: u16, height: u16) -> (res: Rect)
    ensures
        res == spec_center_area(area, width, height),
{
    let rows = layout_split(Direction::Vertical, &centering_constraints(area.height, height), area);
    let band = rows[1];
    let cols = layout_split(Direction::Horizontal, &centering_constraints(area.width, width), band);
    cols[1]
}

/// A rectangle covering `percent_x` percent of the width and `percent_y` percent
/// of the height of `r`, in its middle, as the layout solver places it.
pub open spec fn spec_centered_rect(percent_x: u16, percent_y: u16, r: Rect) -> Rect {
    let band = middle_part(Direction::Vertical, centering_percentages(percent_y), r);
    middle_part(Direction::Horizontal, centering_percentages(percent_x), band)
}

fn percentage_constraints(percent: u16) -> (res: Vec<Constraint>)
    requires
        percent <= 100,
    ensures
        res@ == centering_percentages(percent),
{
    let side = (100 - percent) / 2;
    let res = vec![Constraint::Percentage(side), Constraint::Percentage(percent), Constraint::Percentage(side)];
    assert(res@ =~= centering_percentages(percent));
    res
}

/// Helper function to create a centered rectangle.
pub fn centered_rect(percent_x: u16, percent_y: u16, r: Rect) -> (res: Rect)
    requires
        percent_x <= 100,
        percent_y <= 100,
    ensures
        res == spec_centered_rect(percent_x, percent_y, r),
{
    let rows = layout_split(Direction::Vertical, &percentage_constraints(percent_y), r);
    let band = rows[1];
    let cols = layout_split(Direction::Horizontal, &percentage_constraints(percent_x), band);
    cols[1]
}

} // verus!
