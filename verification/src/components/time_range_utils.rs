//! The time panels of the metrics screen: period, time range and time zone
//! lists, their titles, and when they scroll.
use vstd::prelude::*;
use crate::display_utils::{get_selected_time_range_display, spec_time_range_display};
use crate::style::Color;
use crate::text::{decimal, spec_decimal, string_views};

verus! {

broadcast use vstd::string::group_string_axioms;

/// Whether `count` entries overflow a bordered panel `height` rows high (two
/// rows go to its border), so that a scrollbar is drawn.
pub fn needs_scrollbar(count: usize, height: u16) -> (res: bool)
    ensures
        res == (count > (if height >= 2 { height - 2 } else { 0 })),
{
    let inner: u16 = if height >= 2 { height - 2 } else { 0 };
    count > inner as usize
}

/// The label of the selected entry, or "Unknown" when the selection lies past
/// the list.
pub open spec fn selected_label(labels: Seq<Seq<char>>, selected: nat) -> Seq<char> {
    if selected < labels.len() {
        labels[selected as int]
    } else {
        "Unknown"@
    }
}

fn selected_label_of(labels: &Vec<String>, selected: usize) -> (res: &str)
    ensures
        res@ == selected_label(string_views(labels@), selected as nat),
{
    if selected < labels.len() {
        labels[selected].as_str()
    } else {
        "Unknown"
    }
}

/// The period panel's title: "Period (label)" for the selected period.
pub fn period_panel_title(labels: &Vec<String>, selected: usize) -> (res: String)
    ensures
        res@ == "Period ("@ + selected_label(string_views(labels@), selected as nat) + ")"@,
{
    let mut res = "Period (".to_owned();
    res.append(selected_label_of(labels, selected));
    res.append(")");
    res
}

/// The time-range panel's title: "Time (..)" with the selected range's
/// abbreviation.
pub fn time_panel_title(labels: &Vec<String>, selected: usize) -> (res: String)
    ensures
        res@ == "Time ("@ + spec_time_range_display(selected_label(string_views(labels@), selected as nat)) + ")"@,
{
    let shown = get_selected_time_range_display(selected_label_of(labels, selected));
    let mut res = "Time (".to_owned();
    res.append(shown.as_str());
    res.append(")");
    res
}

/// The time-zone panel's title: "Timezone (name)" for the selected zone.
pub fn timezone_panel_title(display_name: &str) -> (res: String)
    ensures
        res@ == "Timezone ("@ + display_name@ + ")"@,
{
    let mut res = "Timezone (".to_owned();
    res.append(display_name);
    res.append(")");
    res
}

/// The right-hand text of a period entry: its length in seconds, "300s".
pub fn period_seconds_text(seconds: u64) -> (res: String)
    ensures
        res@ == spec_decimal(seconds as nat) + "s"@,
{
    let mut res = decimal(seconds);
    res.append("s");
    res
}

/// The title of the absolute time picker.
pub fn absolute_time_picker_title() -> (res: &'static str)
    ensures
        res@ == "Absolute Time Range"@,
{
    "Absolute Time Range"
}

/// The text of the absolute time picker, which is not yet interactive.
pub fn absolute_time_picker_text() -> (res: &'static str)
    ensures
        res@ == "Absolute time range selection\n\nFeatures coming soon:\n• Custom date/time picker\n• Start/end time selection\n• UTC/Local timezone support\n\nPress 't' to switch to Relative mode"@,
{
    "Absolute time range selection\n\nFeatures coming soon:\n• Custom date/time picker\n• Start/end time selection\n• UTC/Local timezone support\n\nPress 't' to switch to Relative mode"
}

/// The border of the absolute time picker: green when focused, else white.
pub fn absolute_time_picker_border(is_focused: bool) -> (res: Color)
    ensures
        res == (if is_focused { Color::Green } else { Color::White }),
{
    if is_focused {
        Color::Green
    } else {
        Color::White
    }
}

} // verus!
