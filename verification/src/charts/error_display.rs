//! The message panels drawn in a chart's place: errors, missing data, loading,
//! time-outs and failed authentication.
use vstd::prelude::*;
use crate::components::list_styling::{Alignment, BorderStatus};
use crate::layout::{centered_rect, spec_centered_rect, Rect};

verus! {

broadcast use vstd::string::group_string_axioms;

/// A message panel drawn in a chart's place: its title and text, the status its
/// border and text are coloured by, and how the text is aligned (it is always
/// wrapped, trimming leading spaces).
#[derive(Debug)]
pub struct ChartNotice {
    pub title: String,
    pub message: String,
    pub status: BorderStatus,
    pub alignment: Alignment,
}

/// The hints written under a time-out.
pub open spec fn timeout_hints() -> Seq<char> {
    " metrics.\n\nThis may be due to:\n• Network connectivity issues\n• AWS service availability\n• Large time range selected\n\nTry reducing the time range or checking your connection."@
}

/// The text of the authentication error.
pub open spec fn auth_error_text() -> Seq<char> {
    "AWS Authentication Error\n\nPlease check:\n• AWS credentials are configured\n• AWS profile is valid\n• Required permissions are granted\n\nRun 'aws configure' or set AWS_PROFILE environment variable."@
}

/// A general error message in the chart area: "Error", centred.
pub fn error_message_notice(message: &str) -> (res: ChartNotice)
    ensures
        res.title@ == "Error"@,
        res.message@ == message@,
        res.status == BorderStatus::Error,
        res.alignment == Alignment::Center,
{
    ChartNotice {
        title: "Error".to_owned(),
        message: message.to_owned(),
        status: BorderStatus::Error,
        alignment: Alignment::Center,
    }
}

/// An error chart with a specific error message: "Chart Error", centred.
pub fn error_chart_notice(error_msg: &str) -> (res: ChartNotice)
    ensures
        res.title@ == "Chart Error"@,
        res.message@ == error_msg@,
        res.status == BorderStatus::Error,
        res.alignment == Alignment::Center,
{
    ChartNotice {
        title: "Chart Error".to_owned(),
        message: error_msg.to_owned(),
        status: BorderStatus::Error,
        alignment: Alignment::Center,
    }
}

/// A data validation error: the metric in the title, the details framed by a
/// heading and a hint, left-aligned.
pub fn data_validation_error_notice(metric_name: &str, error_details: &str) -> (res: ChartNotice)
    ensures
        res.title@ == "Data Validation Error: "@ + metric_name@,
        res.message@ == "Failed to validate metric data:\n\n"@ + error_details@
            + "\n\nPlease check your data source and try refreshing."@,
        res.status == BorderStatus::Error,
        res.alignment == Alignment::Left,
{
    let mut title = "Data Validation Error: ".to_owned();
    title.append(metric_name);
    let mut message = "Failed to validate metric data:\n\n".to_owned();
    message.append(error_details);
    message.append("\n\nPlease check your data source and try refreshing.");
    ChartNotice { title, message, status: BorderStatus::Error, alignment: Alignment::Left }
}

/// A "no data" message for a metric: "No Data", a warning, centred.
pub fn no_data_notice(metric_name: &str) -> (res: ChartNotice)
    ensures
        res.title@ == "No Data"@,
        res.message@ == "No data available for: "@ + metric_name@,
        res.status == BorderStatus::Warning,
        res.alignment == Alignment::Center,
{
    let mut message = "No data available for: ".to_owned();
    message.append(metric_name);
    ChartNotice { title: "No Data".to_owned(), message, status: BorderStatus::Warning, alignment: Alignment::Center }
}

/// A loading message while data is being fetched: "Loading", informational,
/// centred.
pub fn loading_notice() -> (res: ChartNotice)
    ensures
        res.title@ == "Loading"@,
        res.message@ == "Loading metric data..."@,
        res.status == BorderStatus::Info,
        res.alignment == Alignment::Center,
{
    ChartNotice {
        title: "Loading".to_owned(),
        message: "Loading metric data...".to_owned(),
        status: BorderStatus::Info,
        alignment: Alignment::Center,
    }
}

/// A time-out loading a service's metrics, with its likely causes and a hint,
/// left-aligned.
pub fn timeout_notice(service: &str) -> (res: ChartNotice)
    ensures
        res.title@ == "Timeout Error"@,
        res.message@ == "Timeout loading "@ + service@ + timeout_hints(),
        res.status == BorderStatus::Error,
        res.alignment == Alignment::Left,
{
    let mut message = "Timeout loading ".to_owned();
    message.append(service);
    message.append(
        " metrics.\n\nThis may be due to:\n• Network connectivity issues\n• AWS service availability\n• Large time range selected\n\nTry reducing the time range or checking your connection.",
    );
    ChartNotice {
        title: "Timeout Error".to_owned(),
        message,
        status: BorderStatus::Error,
        alignment: Alignment::Left,
    }
}

/// An AWS authentication error, with what to check, left-aligned.
pub fn auth_error_notice() -> (res: ChartNotice)
    ensures
        res.title@ == "Authentication Error"@,
        res.message@ == auth_error_text(),
        res.status == BorderStatus::Error,
        res.alignment == Alignment::Left,
{
    ChartNotice {
        title: "Authentication Error".to_owned(),
        message: "AWS Authentication Error\n\nPlease check:\n• AWS credentials are configured\n• AWS profile is valid\n• Required permissions are granted\n\nRun 'aws configure' or set AWS_PROFILE environment variable.".to_owned(),
        status: BorderStatus::Error,
        alignment: Alignment::Left,
    }
}

/// A popup error over `area`: the middle 60% of its width and 40% of its height
/// (cleared before drawing, the border in bold), with the given title and message
/// centred.
pub fn error_popup(area: Rect, title: &str, message: &str) -> (res: (Rect, ChartNotice))
    ensures
        res.0 == spec_centered_rect(60, 40, area),
        res.1.title@ == title@,
        res.1.message@ == message@,
        res.1.status == BorderStatus::Error,
        res.1.alignment == Alignment::Center,
{
    let popup_area = centered_rect(60, 40, area);
    (
        popup_area,
        ChartNotice {
            title: title.to_owned(),
            message: message.to_owned(),
            status: BorderStatus::Error,
            alignment: Alignment::Center,
        },
    )
}

} // verus!
