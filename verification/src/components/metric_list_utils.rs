//! Layout of the metric list view.
use vstd::prelude::*;
use crate::layout::Constraint;
use crate::style::Color;
use crate::text::{decimal, spec_decimal};

verus! {

/// Grid layout configuration for the 2x2 metrics view.
#[derive(Debug, Clone, Copy, PartialEq, Eq, Structural)]
pub struct MetricGridLayout {
    pub rows: usize,
    pub cols: usize,
}

/// The fixed 2x2 grid: two columns, two rows, four metrics per screen.
pub fn calculate_2x2_grid_layout() -> (res: MetricGridLayout)
    ensures
        res == (MetricGridLayout { rows: 2, cols: 2 }),
{
    MetricGridLayout { rows: 2, cols: 2 }
}

} // verus!

verus! {

broadcast use vstd::string::group_string_axioms;

/// The screen of a paged metrics grid that holds the selected metric.
#[derive(Debug, Clone, Copy, PartialEq, Eq, Structural)]
pub struct GridPage {
    /// The selected position, moved onto the last metric when it lies past it
    pub selected: usize,
    /// The screen holding the selected metric, counted from 0
    pub page: usize,
    /// The first position shown on that screen
    pub start: usize,
    /// One past the last position shown on that screen
    pub end: usize,
    /// The number of screens
    pub page_count: usize,
    /// The selected position counted from the start of the screen
    pub relative_selected: usize,
}

/// The screen of `total` metrics, `per_screen` to a screen, that holds the
/// selected position (clamped to the last metric).
pub open spec fn spec_grid_page(total: nat, selected: nat, per_screen: nat) -> GridPage {
    let last = if total > 0 { (total - 1) as nat } else { 0 };
    let safe = if selected < last { selected } else { last };
    let page = safe / per_screen;
    let start = page * per_screen;
    let end = if start + per_screen < total { start + per_screen } else { total };
    GridPage {
        selected: safe as usize,
        page: page as usize,
        start: start as usize,
        end: end as usize,
        page_count: ((total + per_screen - 1) / (per_screen as int)) as usize,
        relative_selected: (safe - start) as usize,
    }
}

/// The screen of a paged metrics grid that holds the selected metric.
pub fn grid_page(total: usize, selected: usize, per_screen: usize) -> (res: GridPage)
    requires
        per_screen > 0,
        total + per_screen <= usize::MAX,
    ensures
        res == spec_grid_page(total as nat, selected as nat, per_screen as nat),
{
    let last = if total > 0 { total - 1 } else { 0 };
    let safe = if selected < last { selected } else { last };
    let page = safe / per_screen;
    proof {
        assert(page * per_screen <= safe) by (nonlinear_arith)
            requires page == safe / per_screen, per_screen > 0;
    }
    let start = page * per_screen;
    let end = if start + per_screen < total { start + per_screen } else { total };
    let page_count = (total + per_screen - 1) / per_screen;
    GridPage { selected: safe, page, start, end, page_count, relative_selected: safe - start }
}

/// Of a non-empty list, the screen holding the selection shows it: the selection
/// lies between its first and last position, the screen holds at most
/// `per_screen` metrics and starts at a multiple of `per_screen`, and it is one of
/// the screens counted.
pub proof fn lemma_grid_page_shows_selection(total: nat, selected: nat, per_screen: nat)
    requires
        total > 0,
        per_screen > 0,
        total + per_screen <= usize::MAX,
    ensures
        ({
            let p = spec_grid_page(total, selected, per_screen);
            &&& p.start <= p.selected < p.end <= total
            &&& p.end - p.start <= per_screen
            &&& (p.start as int) % (per_screen as int) == 0
            &&& p.relative_selected < per_screen
            &&& p.page < p.page_count
        }),
{
    let last = (total - 1) as nat;
    let safe = if selected < last { selected } else { last };
    let page = safe / per_screen;
    let start = page * per_screen;
    assert(start <= safe && safe < start + per_screen) by (nonlinear_arith)
        requires page == safe / per_screen, start == page * per_screen, per_screen > 0;
    assert(start % per_screen == 0) by (nonlinear_arith)
        requires start == page * per_screen, per_screen > 0;
    assert(page < (total + per_screen - 1) / (per_screen as int)) by (nonlinear_arith)
        requires page * per_screen <= safe, safe < total, per_screen > 0, page == safe / per_screen;
    assert(page <= safe) by (nonlinear_arith)
        requires page == safe / per_screen, per_screen > 0;
    assert((total + per_screen - 1) / (per_screen as int) <= total + per_screen) by (nonlinear_arith)
        requires per_screen > 0, total > 0;
}

/// The title and border colour of the metrics list: marked and green when focused.
pub fn metric_list_frame(is_focused: bool) -> (res: (&'static str, crate::style::Color))
    ensures
        res.0@ == (if is_focused { "Metrics [FOCUSED]"@ } else { "Metrics"@ }),
        res.1 == (if is_focused { crate::style::Color::Green } else { crate::style::Color::White }),
{
    if is_focused {
        ("Metrics [FOCUSED]", crate::style::Color::Green)
    } else {
        ("Metrics", crate::style::Color::White)
    }
}

/// The title of the paged metrics list: "title (Page p/n - s/t)", counting from 1.
pub fn paged_title(title: &str, page: GridPage, total: usize) -> (res: String)
    requires
        page.page < usize::MAX,
        page.selected < usize::MAX,
    ensures
        res@ == title@ + " (Page "@ + spec_decimal((page.page + 1) as nat) + "/"@ + spec_decimal(page.page_count as nat)
            + " - "@ + spec_decimal((page.selected + 1) as nat) + "/"@ + spec_decimal(total as nat) + ")"@,
{
    let mut res = title.to_owned();
    res.append(" (Page ");
    res.append(decimal((page.page + 1) as u64).as_str());
    res.append("/");
    res.append(decimal(page.page_count as u64).as_str());
    res.append(" - ");
    res.append(decimal((page.selected + 1) as u64).as_str());
    res.append("/");
    res.append(decimal(total as u64).as_str());
    res.append(")");
    res
}

/// The least height of a row of metric cards.
pub const MIN_CARD_ROW_HEIGHT: u16 = 6;

/// The row height of the 2x2 grid of metric cards: half the area, at least six
/// rows.
pub open spec fn card_row_height(height: u16) -> u16 {
    if height / 2 > MIN_CARD_ROW_HEIGHT { (height / 2) as u16 } else { MIN_CARD_ROW_HEIGHT }
}

/// The two row constraints of the 2x2 grid of metric cards.
pub fn card_row_constraints(height: u16) -> (res: Vec<Constraint>)
    ensures
        res@ == seq![Constraint::Length(card_row_height(height)), Constraint::Length(card_row_height(height))],
{
    let half = height / 2;
    let h = if half > MIN_CARD_ROW_HEIGHT { half } else { MIN_CARD_ROW_HEIGHT };
    let res = vec![Constraint::Length(h), Constraint::Length(h)];
    assert(res@ =~= seq![Constraint::Length(card_row_height(height)), Constraint::Length(card_row_height(height))]);
    res
}

/// The border and background of a metric card: yellow on dark gray when
/// selected, white on the terminal's default otherwise.
pub fn card_frame(is_selected: bool) -> (res: (Color, Color))
    ensures
        res == (if is_selected { (Color::Yellow, Color::DarkGray) } else { (Color::White, Color::Reset) }),
{
    if is_selected {
        (Color::Yellow, Color::DarkGray)
    } else {
        (Color::White, Color::Reset)
    }
}

/// The width of a card's sparkline: the card less its borders and margins.
pub fn card_sparkline_width(card_width: u16) -> (res: usize)
    ensures
        res == (if card_width >= 4 { card_width - 4 } else { 0 }),
{
    if card_width >= 4 {
        (card_width - 4) as usize
    } else {
        0
    }
}

} // verus!
