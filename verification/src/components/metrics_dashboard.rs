//! The header and status line of the metrics dashboard.
use vstd::prelude::*;
use crate::layout::{layout_split, spec_split, Constraint, Direction, Rect};
use crate::models::{selected_instance_of, types_with_data, App, AwsService, ServiceInstance, TimeUnit};
use crate::text::{decimal, spec_decimal};
use crate::time::{clock_text, spec_clock_text};

verus! {

broadcast use vstd::string::group_string_axioms;

/// The timestamps of the selected service's predefined metrics; none when no
/// service is selected.
pub open spec fn selected_timestamps(app: App) -> Seq<u64> {
    match app.selected_service {
        Some(AwsService::Rds) => app.metrics.timestamps@,
        Some(AwsService::Sqs) => app.sqs_metrics.timestamps@,
        None => Seq::empty(),
    }
}

/// Metrics dashboard.
#[derive(Debug)]
pub struct MetricsDashboard;

impl MetricsDashboard {
    /// The number of the selected service's predefined series that hold readings;
    /// 0 when no service is selected.
    pub fn get_metrics_count(app: &App) -> (res: usize)
        ensures
            res == match app.selected_service {
                Some(AwsService::Rds) => types_with_data(app.metrics.series@).len(),
                Some(AwsService::Sqs) => types_with_data(app.sqs_metrics.series@).len(),
                None => 0,
            },
    {
        match app.selected_service {
            Some(AwsService::Rds) => app.metrics.get_available_metrics_with_data().len(),
            Some(AwsService::Sqs) => app.sqs_metrics.get_available_metrics().len(),
            None => 0,
        }
    }

    /// The latest timestamp of the selected service's predefined metrics; `None`
    /// when no service is selected or it has no timestamps.
    pub fn last_update_secs(app: &App) -> (res: Option<u64>)
        ensures
            res == if selected_timestamps(*app).len() > 0 {
                Some(selected_timestamps(*app).last())
            } else {
                None::<u64>
            },
    {
        let timestamps = match app.selected_service {
            Some(AwsService::Rds) => app.metrics.timestamps.as_slice(),
            Some(AwsService::Sqs) => app.sqs_metrics.timestamps.as_slice(),
            None => {
                return None;
            },
        };
        if timestamps.len() == 0 {
            None
        } else {
            Some(timestamps[timestamps.len() - 1])
        }
    }

    /// When the metrics were last updated: "Never" when the selected service has no
    /// timestamp; otherwise the "HH:MM:SS" of its latest timestamp in the local time
    /// zone, `utc_offset_secs` seconds east of UTC at that instant.
    pub fn get_last_updated_info(app: &App, utc_offset_secs: i32) -> (res: String)
        requires
            -86400 < utc_offset_secs < 86400,
        ensures
            selected_timestamps(*app).len() == 0 ==> res@ == "Never"@,
            selected_timestamps(*app).len() > 0 ==> res@ == spec_clock_text(
                selected_timestamps(*app).last() + utc_offset_secs,
                true,
            ),
    {
        match Self::last_update_secs(app) {
            Some(secs) => clock_text(secs, utc_offset_secs, true),
            None => "Never".to_owned(),
        }
    }

    /// The dashboard's rows: a header of three rows, the metrics grid (at least
    /// ten rows) and a status line of three rows.
    pub fn dashboard_areas(area: Rect) -> (res: (Rect, Rect, Rect))
        ensures
            res.0 == spec_split(Direction::Vertical, dashboard_rows(), area)[0],
            res.1 == spec_split(Direction::Vertical, dashboard_rows(), area)[1],
            res.2 == spec_split(Direction::Vertical, dashboard_rows(), area)[2],
    {
        let rows = vec![Constraint::Length(3), Constraint::Min(10), Constraint::Length(3)];
        assert(rows@ =~= dashboard_rows());
        let parts = layout_split(Direction::Vertical, &rows, area);
        (parts[0], parts[1], parts[2])
    }

    /// The dashboard's header: the selected resource and the time range.
    pub fn header_text(app: &App, value: u64, unit: TimeUnit) -> (res: String)
        ensures
            res@ == spec_header_text(selected_instance_of(*app), value, unit),
    {
        let mut res = match app.get_selected_instance() {
            Some(ServiceInstance::Rds(instance)) => {
                let mut s = "RDS Instance: ".to_owned();
                s.append(instance.identifier.as_str());
                s
            },
            Some(ServiceInstance::Sqs(queue)) => {
                let mut s = "SQS Queue: ".to_owned();
                s.append(queue.name.as_str());
                s
            },
            None => "No service selected".to_owned(),
        };
        res.append(" • Time Range: ");
        res.append(decimal(value).as_str());
        res.append(" ");
        res.append(unit_name(unit));
        res
    }

    /// The dashboard's status line: the number of metrics and when they were
    /// last updated, with the keys to refresh, go back and quit.
    pub fn status_text(metrics_count: usize, last_updated: &str) -> (res: String)
        ensures
            res@ == "Metrics: "@ + spec_decimal(metrics_count as nat) + " • Last Updated: "@ + last_updated@
                + " • Press 'r' to refresh • 'b' to go back • 'q' to quit"@,
    {
        let mut res = "Metrics: ".to_owned();
        res.append(decimal(metrics_count as u64).as_str());
        res.append(" • Last Updated: ");
        res.append(last_updated);
        res.append(" • Press 'r' to refresh • 'b' to go back • 'q' to quit");
        res
    }
}

/// The dashboard's rows.
pub open spec fn dashboard_rows() -> Seq<Constraint> {
    seq![Constraint::Length(3), Constraint::Min(10), Constraint::Length(3)]
}

/// The name of a time unit, in the plural.
pub open spec fn spec_unit_name(unit: TimeUnit) -> Seq<char> {
    match unit {
        TimeUnit::Minutes => "minutes"@,
        TimeUnit::Hours => "hours"@,
        TimeUnit::Days => "days"@,
        TimeUnit::Weeks => "weeks"@,
        TimeUnit::Months => "months"@,
    }
}

fn unit_name(unit: TimeUnit) -> (res: &'static str)
    ensures
        res@ == spec_unit_name(unit),
{
    match unit {
        TimeUnit::Minutes => "minutes",
        TimeUnit::Hours => "hours",
        TimeUnit::Days => "days",
        TimeUnit::Weeks => "weeks",
        TimeUnit::Months => "months",
    }
}

/// The dashboard's header for a selected resource and a time range of `value`
/// units: "RDS Instance: id" or "SQS Queue: name" ("No service selected" without
/// one), then " • Time Range: " and the range.
pub open spec fn spec_header_text(selected: Option<ServiceInstance>, value: u64, unit: TimeUnit) -> Seq<char> {
    (match selected {
        Some(ServiceInstance::Rds(instance)) => "RDS Instance: "@ + instance.identifier@,
        Some(ServiceInstance::Sqs(queue)) => "SQS Queue: "@ + queue.name@,
        None => "No service selected"@,
    }) + " • Time Range: "@ + spec_decimal(value as nat) + " "@ + spec_unit_name(unit)
}

} // verus!
