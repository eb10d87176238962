use cloudwatch_tui::charts::data_collector::{
    get_metrics_count, get_service_name, get_timestamps_for_app, has_metrics_data, title_text,
};
use cloudwatch_tui::models::{
    App, AwsService, DynamicMetricData, DynamicMetrics, MetricData, MetricSeries, MetricType, SqsMetricData,
};

fn dynamic(name: &str, history: Vec<f64>, timestamps: Vec<u64>) -> DynamicMetricData {
    DynamicMetricData {
        metric_name: name.to_string(),
        display_name: name.to_string(),
        current_value: history.last().copied().unwrap_or(0.0).to_bits(),
        history: history.into_iter().map(f64::to_bits).collect(),
        timestamps,
        unit: None,
    }
}

#[test]
fn test_has_metrics_data_empty() {
    let app = App {
        metrics: MetricData::default(),
        sqs_metrics: SqsMetricData::default(),
        dynamic_metrics: None,
        selected_service: Some(AwsService::Rds),
        ..Default::default()
    };

    assert!(!has_metrics_data(&app));
}

#[test]
fn test_get_service_name() {
    let mut app = App::default();
    app.selected_service = Some(AwsService::Rds);
    assert_eq!(get_service_name(&app), "RDS");

    app.selected_service = Some(AwsService::Sqs);
    assert_eq!(get_service_name(&app), "SQS");
}

#[test]
fn test_get_metrics_count_empty() {
    let app = App {
        metrics: MetricData::default(),
        sqs_metrics: SqsMetricData::default(),
        dynamic_metrics: None,
        selected_service: Some(AwsService::Rds),
        ..Default::default()
    };

    assert_eq!(get_metrics_count(&app), 0);
}

#[test]
fn test_title_text_format() {
    let display_name = "CPU Utilization";
    let formatted_value = "75.5%";
    let expected = "CPU Utilization: 75.5%";
    let actual = title_text(display_name, formatted_value);
    assert_eq!(actual, expected);
}

#[test]
fn service_name_defaults_to_rds() {
    let app = App::default();
    assert_eq!(app.selected_service, None);
    assert_eq!(get_service_name(&app), "RDS");
}

#[test]
fn legacy_counts_only_series_with_readings() {
    let mut app = App::default();
    app.selected_service = Some(AwsService::Sqs);
    app.sqs_metrics.series = vec![
        MetricSeries { metric_type: MetricType::NumberOfMessagesSent, current_value: 0, history: vec![1.0f64.to_bits()] },
        MetricSeries { metric_type: MetricType::NumberOfMessagesDeleted, current_value: 0, history: vec![] },
        MetricSeries { metric_type: MetricType::SentMessageSize, current_value: 0, history: vec![2.0f64.to_bits()] },
    ];
    assert_eq!(get_metrics_count(&app), 2);
    assert!(has_metrics_data(&app));
    // RDS series are not consulted while SQS is selected.
    app.selected_service = Some(AwsService::Rds);
    assert_eq!(get_metrics_count(&app), 0);
    assert!(!has_metrics_data(&app));
}

#[test]
fn dynamic_metrics_take_precedence() {
    let mut app = App::default();
    app.metrics.series = vec![MetricSeries {
        metric_type: MetricType::CpuUtilization,
        current_value: 0,
        history: vec![5.0f64.to_bits()],
    }];
    app.dynamic_metrics = Some(DynamicMetrics {
        metrics: vec![dynamic("A", vec![], vec![]), dynamic("B", vec![], vec![])],
    });
    // Every discovered metric counts, with or without readings.
    assert_eq!(get_metrics_count(&app), 2);
    // None of them holds a reading, and the predefined series are not consulted.
    assert!(!has_metrics_data(&app));
}

#[test]
fn timestamps_come_from_first_dynamic_metric_that_has_them() {
    let mut app = App::default();
    app.dynamic_metrics = Some(DynamicMetrics {
        metrics: vec![
            dynamic("A", vec![1.0], vec![]),
            dynamic("B", vec![1.0, 2.0], vec![100, 160]),
            dynamic("C", vec![3.0], vec![7]),
        ],
    });
    assert_eq!(get_timestamps_for_app(&app), Some(&[100u64, 160][..]));

    app.dynamic_metrics = Some(DynamicMetrics { metrics: vec![dynamic("A", vec![1.0], vec![])] });
    assert_eq!(get_timestamps_for_app(&app), None);
}

#[test]
fn timestamps_fall_back_to_the_selected_service() {
    let mut app = App::default();
    app.metrics.timestamps = vec![1, 2, 3];
    app.sqs_metrics.timestamps = vec![];
    assert_eq!(get_timestamps_for_app(&app), Some(&[1u64, 2, 3][..]));
    app.selected_service = Some(AwsService::Sqs);
    assert_eq!(get_timestamps_for_app(&app), None);
}

#[test]
fn title_text_joins_name_and_value() {
    assert_eq!(title_text("", ""), ": ");
    assert_eq!(title_text("Read IOPS", "12"), "Read IOPS: 12");
}
