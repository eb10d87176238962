use cloudwatch_tui::components::metric::health_thresholds::HealthThresholds as Thresholds;
use cloudwatch_tui::components::metric::metric_definition::{MetricColor, MetricDefinition as Entry, MetricStatus};
use cloudwatch_tui::components::metric::metric_registry::MetricRegistry as Registry;
use cloudwatch_tui::components::metric::rds_definitions::get_rds_metric_definition;
use cloudwatch_tui::components::metric::sqs_definitions::get_sqs_metric_definition;
use cloudwatch_tui::components::metric::display_format::DisplayFormat as Format;
use cloudwatch_tui::components::metric_definitions::{
    DisplayFormat, HealthThresholds, MetricRegistry, MetricUnit,
};
use cloudwatch_tui::components::metric_utils::get_metric_unit;
use cloudwatch_tui::models::{AwsService, MetricType};
use cloudwatch_tui::style::{Color, ThemeColor};

#[test]
fn catalogue_entries() {
    let d = MetricRegistry::get_definition(&MetricType::CpuUtilization);
    assert_eq!(d.name, "CPU Utilization");
    assert_eq!(d.unit, MetricUnit::Percent);
    assert_eq!(d.display_format, DisplayFormat::Percentage);
    assert_eq!(d.thresholds, Some(HealthThresholds { critical_milli: 80_000, warning_milli: 60_000, reverse_logic: false }));
    assert_eq!(d.color, Color::Blue);
    assert_eq!(d.unit_suffix(), "%");
    let d = MetricRegistry::get_definition(&MetricType::ReadLatency);
    assert_eq!(d.thresholds.unwrap().critical_milli as f64 / 1000.0, 0.1);
    let d = MetricRegistry::get_definition(&MetricType::Percentage);
    assert_eq!(d.name, "Unknown Metric");
    assert_eq!(d.display_format, DisplayFormat::Decimal(2));
    assert_eq!(d.color, Color::Gray);
    let d = MetricRegistry::get_definition(&MetricType::CpuCreditUsage);
    assert_eq!(d.unit_suffix(), " Credits");
}

#[test]
fn offered_metrics_per_service() {
    let rds = MetricRegistry::get_available_metrics_for_service(&AwsService::Rds);
    assert_eq!(rds.len(), 7);
    assert_eq!(rds[0], MetricType::CpuUtilization);
    let sqs = MetricRegistry::get_available_metrics_for_service(&AwsService::Sqs);
    assert_eq!(sqs.len(), 8);
    assert_eq!(sqs[7], MetricType::NumberOfMessagesInDlq);
    for m in rds.iter().chain(sqs.iter()) {
        assert_ne!(MetricRegistry::get_definition(m).name, "Unknown Metric");
    }
}

fn ordered(t: &HealthThresholds) -> bool {
    if t.reverse_logic { t.critical_milli < t.warning_milli } else { t.warning_milli < t.critical_milli }
}

#[test]
fn thresholds_are_ordered() {
    let all = [
        MetricType::CpuUtilization, MetricType::FreeStorageSpace, MetricType::SwapUsage, MetricType::BurstBalance,
        MetricType::CpuCreditBalance, MetricType::FreeableMemory, MetricType::SentMessageSize, MetricType::QueueDepth,
    ];
    for m in all {
        if let Some(t) = MetricRegistry::get_definition(&m).thresholds {
            assert!(ordered(&t));
        }
        if let Some(t) = Registry::get_definition(&m).thresholds {
            assert!(if t.reverse_logic { t.critical_milli < t.warning_milli } else { t.warning_milli < t.critical_milli });
        }
    }
}

#[test]
fn registry_with_theme_colours() {
    let d = Registry::get_definition(&MetricType::CpuUtilization);
    assert_eq!(d.name, "CPU Utilization");
    assert_eq!(d.color, MetricColor::Themed(ThemeColor::Accent));
    assert!(d.has_thresholds());
    let d = Registry::get_definition_simplified(&MetricType::ReadThroughput);
    assert_eq!(d.color, MetricColor::Themed(ThemeColor::ChartAccent));
    let d = Registry::get_definition_simplified(&MetricType::ReadIops);
    assert_eq!(d.color, MetricColor::Fixed(Color::Green));
    assert!(!d.has_thresholds());
    let d = Registry::get_definition(&MetricType::SwapUsage);
    assert_eq!(d.color, MetricColor::Fixed(Color::Red));
    let d = Registry::get_definition(&MetricType::Seconds);
    assert_eq!(d.name, "Unknown Metric");
    assert_eq!(d.display_format, Format::Decimal(2));
    assert_eq!(MetricStatus::Critical.color(), ThemeColor::Error);
    assert_eq!(MetricStatus::Unknown.color(), ThemeColor::Muted);
    let e = Entry::new("X", Format::Bytes, Some(Thresholds::new(2, 1, false)), MetricColor::Fixed(Color::Cyan), "d");
    assert_eq!(e.thresholds, Some(Thresholds { critical_milli: 2, warning_milli: 1, reverse_logic: false }));
}

#[test]
fn service_tables() {
    assert_eq!(get_rds_metric_definition(&MetricType::QueueDepth).name, "Queue Depth");
    assert_eq!(get_rds_metric_definition(&MetricType::NumberOfMessagesSent).name, "Unknown Metric");
    assert_eq!(get_sqs_metric_definition(&MetricType::NumberOfMessagesInDlq).name, "DLQ Messages");
    assert_eq!(
        get_sqs_metric_definition(&MetricType::SentMessageSize).thresholds,
        Some(Thresholds { critical_milli: 204_800_000, warning_milli: 102_400_000, reverse_logic: false })
    );
}

#[test]
fn units_of_metric_types() {
    assert_eq!(get_metric_unit(&MetricType::CpuUtilization), "Percent");
    assert_eq!(get_metric_unit(&MetricType::ReadIops), "Count");
    assert_eq!(get_metric_unit(&MetricType::ReplicaLag), "Seconds");
    assert_eq!(get_metric_unit(&MetricType::SwapUsage), "Bytes");
    assert_eq!(get_metric_unit(&MetricType::ReadThroughput), "Bytes/Second");
    assert_eq!(get_metric_unit(&MetricType::CpuSurplusCreditsCharged), "Credits");
    assert_eq!(get_metric_unit(&MetricType::EbsIoBalance), "Percent");
}
