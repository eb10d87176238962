use cloudwatch_tui::charts::formatter::{get_rds_metric_display_info, get_sqs_metric_display_info, ReadingFormat, ScaleMax};
use cloudwatch_tui::components::metric::metric_definition::MetricColor;
use cloudwatch_tui::models::SqsMetricData;
use cloudwatch_tui::style::ThemeColor;
use cloudwatch_tui::charts::chart_data::{get_rds_current_value, get_rds_history, get_sqs_history, MetricChartData};
use cloudwatch_tui::charts::data_collector::{select_dynamic_metrics, sort_by_display_name};
use cloudwatch_tui::components::aws_metrics_grid::{map_dynamic_to_metric_type, AwsMetricsGrid};
use cloudwatch_tui::components::metrics_dashboard::MetricsDashboard;
use cloudwatch_tui::components::page::overlays::{ErrorOverlay, LoadingOverlay, OverlayRenderer};
use cloudwatch_tui::components::page::standard_layout::{content_and_footer_areas, EmptyPageContent, SimplePageContent, StandardPageLayout};
use cloudwatch_tui::display_utils::truncate_string;
use cloudwatch_tui::layout::Rect;
use cloudwatch_tui::models::{App, AwsService, DynamicMetricData, DynamicMetrics, MetricData, MetricSeries, MetricType};
use cloudwatch_tui::text::{compare_text, decimal, pad_right, TextOrder};

fn dm(name: &str, history: &[f64], ts: usize) -> DynamicMetricData {
    DynamicMetricData {
        metric_name: name.to_string(),
        display_name: name.to_string(),
        current_value: 0,
        history: history.iter().map(|v| v.to_bits()).collect(),
        timestamps: vec![1; ts],
        unit: None,
    }
}

#[test]
fn text_order_and_numbers() {
    assert_eq!(compare_text("a", "b"), TextOrder::Less);
    assert_eq!(compare_text("ab", "a"), TextOrder::Greater);
    assert_eq!(compare_text("", ""), TextOrder::Equal);
    assert_eq!(compare_text("Z", "a"), TextOrder::Less);
    assert_eq!(decimal(0), "0");
    assert_eq!(decimal(1234567890), "1234567890");
    assert_eq!(pad_right("ab", 4), "ab  ");
    assert_eq!(pad_right("abcde", 4), "abcde");
}

#[test]
fn valid_metrics_sorted_by_name() {
    let ms = vec![
        dm("Zeta", &[1.0], 1),
        dm("Alpha", &[], 0),
        dm("Beta", &[f64::NAN], 1),
        dm("Alpha", &[2.0, 3.0], 2),
        dm("Gamma", &[1.0], 2),
        dm("Alpha", &[4.0], 1),
    ];
    assert_eq!(select_dynamic_metrics(&ms), vec![3, 5, 0]);
    assert_eq!(sort_by_display_name(&ms), vec![1, 3, 5, 2, 4, 0]);
    assert_eq!(sort_by_display_name(&vec![]), Vec::<usize>::new());
}

#[test]
fn grid_order_of_discovered_metrics() {
    let mut app = App::default();
    assert_eq!(AwsMetricsGrid::dynamic_metric_order(&app), None);
    app.dynamic_metrics = Some(DynamicMetrics { metrics: vec![] });
    assert_eq!(AwsMetricsGrid::dynamic_metric_order(&app), None);
    app.dynamic_metrics = Some(DynamicMetrics { metrics: vec![dm("b", &[], 0), dm("a", &[], 0)] });
    assert_eq!(AwsMetricsGrid::dynamic_metric_order(&app), Some(vec![1, 0]));
    assert_eq!(map_dynamic_to_metric_type("ReadIOPS"), Some(MetricType::ReadIops));
    assert_eq!(map_dynamic_to_metric_type("readiops"), None);
}

#[test]
fn chart_data_from_series() {
    let mut app = App::default();
    let metrics = MetricData {
        timestamps: vec![10, 20],
        series: vec![
            MetricSeries { metric_type: MetricType::CpuUtilization, current_value: 7, history: vec![1, 2] },
            MetricSeries { metric_type: MetricType::CpuUtilization, current_value: 9, history: vec![3] },
        ],
    };
    assert_eq!(get_rds_current_value(&metrics, &MetricType::CpuUtilization), Some(7));
    assert_eq!(get_rds_history(&metrics, &MetricType::CpuUtilization), Some(&vec![1, 2]));
    assert_eq!(get_rds_current_value(&metrics, &MetricType::ReadIops), None);
    assert_eq!(get_rds_history(&metrics, &MetricType::NumberOfMessagesSent), None);
    assert_eq!(get_sqs_history(&app.sqs_metrics, &MetricType::NumberOfMessagesSent), None);
    app.metrics = metrics;
    assert!(MetricChartData::from_app(&app, MetricType::CpuUtilization).is_none());
    app.selected_service = Some(AwsService::Rds);
    let d = MetricChartData::from_app(&app, MetricType::CpuUtilization).unwrap();
    assert_eq!((d.current_value, d.history, d.timestamps), (7, vec![1, 2], vec![10, 20]));
}

#[test]
fn dashboard_counts_and_last_update() {
    let mut app = App::default();
    assert_eq!(MetricsDashboard::get_metrics_count(&app), 0);
    assert_eq!(MetricsDashboard::get_last_updated_info(&app, 0), "Never");
    assert_eq!(MetricsDashboard::last_update_secs(&app), None);
    app.selected_service = Some(AwsService::Rds);
    app.metrics.series = vec![MetricSeries { metric_type: MetricType::CpuUtilization, current_value: 0, history: vec![1] }];
    assert_eq!(MetricsDashboard::get_metrics_count(&app), 1);
    assert_eq!(MetricsDashboard::get_last_updated_info(&app, 0), "Never");
    app.metrics.timestamps = vec![1_000, 1_700_000_000];
    assert_eq!(MetricsDashboard::last_update_secs(&app), Some(1_700_000_000));
    assert_eq!(MetricsDashboard::get_last_updated_info(&app, 0), "22:13:20");
    assert_eq!(MetricsDashboard::get_last_updated_info(&app, 3600), "23:13:20");
    app.selected_service = Some(AwsService::Sqs);
    assert_eq!(MetricsDashboard::last_update_secs(&app), None);
    app.sqs_metrics.timestamps = vec![60];
    assert_eq!(MetricsDashboard::get_last_updated_info(&app, -60), "00:00:00");
}

#[test]
fn overlays() {
    let l = LoadingOverlay::new("Fetching");
    assert_eq!(l.display_message(), "⠋ Fetching");
    assert_eq!(l.clone().with_spinner(false).display_message(), "Fetching");
    assert_eq!(LoadingOverlay::default().message, "Loading...");
    let area = Rect { x: 0, y: 0, width: 100, height: 40 };
    assert_eq!(l.overlay_area(area), Rect { x: 30, y: 16, width: 40, height: 8 });
    let e = ErrorOverlay::with_message("boom");
    assert_eq!(e.title, "Error");
    assert!(e.clone().with_details(true).show_details);
    let a = e.overlay_area(area);
    assert_eq!(a, Rect { x: 20, y: 15, width: 60, height: 10 });
    assert_eq!(ErrorOverlay::controls_area(a), Some(Rect { x: 20, y: 23, width: 60, height: 1 }));
    assert_eq!(ErrorOverlay::controls_area(Rect { x: 0, y: 0, width: 5, height: 8 }), None);
    assert_eq!(OverlayRenderer::info_overlay_area(area), Rect { x: 25, y: 17, width: 50, height: 6 });
}

#[test]
fn standard_layout_builders() {
    let mut p = StandardPageLayout::new("Title", SimplePageContent::new("t", "body"), "q: quit")
        .with_subtitle("sub")
        .with_borders(false)
        .with_loading("wait");
    assert_eq!(p.subtitle, Some("sub".to_string()));
    assert!(!p.show_borders);
    assert_eq!(p.loading_overlay.as_ref().unwrap().message, "wait");
    p.hide_loading();
    assert!(p.loading_overlay.is_none());
    p.show_error("E", "m");
    assert_eq!(p.error_overlay.as_ref().unwrap().title, "E");
    p.hide_error();
    p.set_title("New");
    p.set_footer_text("f");
    p.set_subtitle(None);
    assert_eq!((p.title.as_str(), p.footer_text.as_str(), p.subtitle.is_none()), ("New", "f", true));
    assert_eq!(p.content.content_title(), "t");
    assert_eq!(EmptyPageContent.content_title(), "");
    let (c, f) = content_and_footer_areas(Rect { x: 0, y: 0, width: 80, height: 24 });
    assert_eq!(c, Rect { x: 0, y: 0, width: 80, height: 23 });
    assert_eq!(f, Rect { x: 0, y: 23, width: 80, height: 1 });
}

#[test]
fn truncation() {
    assert_eq!(truncate_string("hello", 10), "hello");
    assert_eq!(truncate_string("hello world", 8), "hello...");
    assert_eq!(truncate_string("hello", 2), "..");
}

#[test]
fn display_info_of_predefined_metrics() {
    let metrics = MetricData {
        timestamps: vec![1],
        series: vec![MetricSeries { metric_type: MetricType::FreeStorageSpace, current_value: 0, history: vec![5] }],
    };
    let info = get_rds_metric_display_info(&MetricType::FreeStorageSpace, &metrics);
    assert_eq!(info.name, "Free Storage Space (GB)");
    assert_eq!(info.format, Some(ReadingFormat::BytesGb));
    assert_eq!(info.history, Some(&vec![5]));
    assert_eq!(info.color, MetricColor::Themed(ThemeColor::ChartSecondary));
    assert_eq!(info.max, ScaleMax::HistoryMax);
    let info = get_rds_metric_display_info(&MetricType::CpuUtilization, &metrics);
    assert_eq!((info.name, info.max, info.history), ("CPU Utilization (%)", ScaleMax::Hundred, None));
    let info = get_rds_metric_display_info(&MetricType::SwapUsage, &metrics);
    assert_eq!((info.name, info.format, info.max), ("Unknown Metric", None, ScaleMax::One));
    assert_eq!(info.color, MetricColor::Themed(ThemeColor::Muted));
    let sqs = SqsMetricData::default();
    let info = get_sqs_metric_display_info(&MetricType::NumberOfMessagesSent, &sqs);
    assert_eq!((info.name, info.format), ("Number of Messages Sent", Some(ReadingFormat::Count)));
    assert_eq!(get_sqs_metric_display_info(&MetricType::SentMessageSize, &sqs).name, "Unknown Metric");
}
