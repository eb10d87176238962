use cloudwatch_tui::charts::formatter::{metric_name_value_kind, ValueKind};
use cloudwatch_tui::charts::name_order::order_by_name;
use cloudwatch_tui::charts::types::{ChartConfig, ChartContext, ChartData, ChartMode, GridLayout as ChartGrid};
use cloudwatch_tui::charts::grid_layout::GridLayout;
use cloudwatch_tui::components::aws_metrics_grid::{AwsMetricsGrid, UnifiedMetricData, UnifiedView};
use cloudwatch_tui::components::metric::display_format::DisplayFormat;
use cloudwatch_tui::components::metric::metric_definition::MetricColor;
use cloudwatch_tui::components::metric::metric_registry::MetricRegistry;
use cloudwatch_tui::components::metric_list_utils::{card_frame, card_row_constraints, card_sparkline_width};
use cloudwatch_tui::components::metric_utils::{metric_color_rule, unit_format, ColorRule, UnitFormat};
use cloudwatch_tui::components::metrics_dashboard::MetricsDashboard;
use cloudwatch_tui::components::sparkline_utils::{
    blank_sparkline, generate_braille_inline_sparkline, generate_single_point_sparkline,
};
use cloudwatch_tui::layout::{Constraint, Rect};
use cloudwatch_tui::models::{
    App, AwsService, DynamicMetricData, DynamicMetrics, MetricSeries, MetricType, RdsInstance, ServiceInstance,
    SqsQueue, TimeUnit,
};
use cloudwatch_tui::style::{Color, ThemeColor};

fn dynamic(name: &str, display: &str) -> DynamicMetricData {
    DynamicMetricData {
        metric_name: name.to_string(),
        display_name: display.to_string(),
        current_value: 1.5f64.to_bits(),
        history: vec![1.0f64.to_bits(), 1.5f64.to_bits()],
        timestamps: vec![10, 20],
        unit: Some("Count".to_string()),
    }
}

fn series(metric_type: MetricType) -> MetricSeries {
    MetricSeries { metric_type, current_value: 2.0f64.to_bits(), history: vec![2.0f64.to_bits()] }
}

#[test]
fn inline_sparklines() {
    assert_eq!(blank_sparkline(3), "⠀".repeat(8));
    assert_eq!(blank_sparkline(10), "⠀".repeat(10));
    assert_eq!(generate_single_point_sparkline(5), "⠀⠀⣿⠀⠀");
    assert_eq!(generate_single_point_sparkline(0), "⣿");
    assert_eq!(generate_braille_inline_sparkline(&[0, 3, 8, 9], 6), "⣀⣇⣿⣤⠀⠀");
    assert_eq!(generate_braille_inline_sparkline(&[4, 5, 6], 2), "⣧⣷");
    assert_eq!(generate_braille_inline_sparkline(&[], 3), "⠀⠀⠀");
}

#[test]
fn dashboard_texts() {
    let mut app = App::default();
    assert_eq!(
        MetricsDashboard::header_text(&app, 3, TimeUnit::Hours),
        "No service selected • Time Range: 3 hours"
    );
    app.instances.push(ServiceInstance::Sqs(SqsQueue {
        name: "jobs".to_string(),
        url: "https://q".to_string(),
        queue_type: "Standard".to_string(),
    }));
    app.selected_instance = Some(0);
    assert_eq!(MetricsDashboard::header_text(&app, 1, TimeUnit::Days), "SQS Queue: jobs • Time Range: 1 days");
    app.instances[0] = ServiceInstance::Rds(RdsInstance {
        identifier: "db-7".to_string(),
        engine: "mysql".to_string(),
        status: "available".to_string(),
        instance_class: "db.m5.large".to_string(),
        endpoint: None,
    });
    assert_eq!(MetricsDashboard::header_text(&app, 15, TimeUnit::Minutes), "RDS Instance: db-7 • Time Range: 15 minutes");
    app.selected_instance = Some(4);
    assert!(app.get_selected_instance().is_none());
    assert_eq!(
        MetricsDashboard::status_text(12, "10:00:00"),
        "Metrics: 12 • Last Updated: 10:00:00 • Press 'r' to refresh • 'b' to go back • 'q' to quit"
    );
    let (header, grid, status) = MetricsDashboard::dashboard_areas(Rect { x: 0, y: 0, width: 80, height: 30 });
    assert_eq!((header.height, status.height), (3, 3));
    assert_eq!(grid.height, 24);
}

#[test]
fn chart_types() {
    let config = ChartConfig::default();
    assert!(config.title.is_empty());
    assert_eq!(config.color, Color::Blue);
    assert!(config.show_border && !config.is_focused);
    assert_eq!(config.padding, 1);
    let data = ChartData {
        name: "CPU".to_string(),
        current_value: 1.0f64.to_bits(),
        history: vec![],
        timestamps: vec![],
        color: Color::Cyan,
        formatted_value: "1.0%".to_string(),
        max_value: 100.0f64.to_bits(),
    };
    let grid = ChartGrid::new(2, 2);
    let ctx = ChartContext::new(&data, &config, ChartMode::Summary);
    assert!(ctx.layout.is_none() && ctx.selected_index.is_none());
    let ctx = ctx.with_grid(&grid, 3);
    assert_eq!(ctx.selected_index, Some(3));
    assert_eq!(ctx.layout, Some(&grid));
    assert_eq!(ctx.mode, ChartMode::Summary);
}

#[test]
fn axis_value_kinds() {
    assert_eq!(metric_name_value_kind("FreeStorageSpace Bytes"), ValueKind::Bytes);
    assert_eq!(metric_name_value_kind("CPUUtilization"), ValueKind::Percent);
    assert_eq!(metric_name_value_kind("DatabaseConnections"), ValueKind::Count);
    assert_eq!(metric_name_value_kind("ReadLatency"), ValueKind::Duration);
    assert_eq!(metric_name_value_kind("NetworkIn"), ValueKind::Generic);
}

#[test]
fn names_in_order() {
    assert_eq!(order_by_name(&vec!["b", "a", "c", "a"]), vec![1, 3, 0, 2]);
    assert!(order_by_name(&vec![]).is_empty());
}

#[test]
fn metric_colour_rules_and_unit_formats() {
    assert_eq!(metric_color_rule("CPU Utilization"), ColorRule::Above { high_milli: 80_000, medium_milli: 60_000 });
    assert_eq!(metric_color_rule("Write Latency"), ColorRule::Above { high_milli: 100, medium_milli: 50 });
    assert_eq!(metric_color_rule("Freeable Memory"), ColorRule::FreeSpace);
    assert_eq!(metric_color_rule("Queue Depth"), ColorRule::Plain);
    assert_eq!(unit_format("Bytes/Second"), UnitFormat::Bytes);
    assert_eq!(unit_format("Percent"), UnitFormat::Percent);
    assert_eq!(unit_format("Seconds"), UnitFormat::Seconds);
    assert_eq!(unit_format("Credits"), UnitFormat::Count);
    assert_eq!(unit_format("Bits"), UnitFormat::Plain);
}

#[test]
fn metric_cards() {
    assert_eq!(card_row_constraints(30), vec![Constraint::Length(15), Constraint::Length(15)]);
    assert_eq!(card_row_constraints(9), vec![Constraint::Length(6), Constraint::Length(6)]);
    assert_eq!(card_frame(true), (Color::Yellow, Color::DarkGray));
    assert_eq!(card_frame(false), (Color::White, Color::Reset));
    assert_eq!(card_sparkline_width(20), 16);
    assert_eq!(card_sparkline_width(3), 0);
}

#[test]
fn unified_definitions() {
    let known = UnifiedMetricData::Dynamic(dynamic("CPUUtilization", "CPU"));
    let definition = known.get_definition();
    assert_eq!(definition.name, MetricRegistry::get_definition(&MetricType::CpuUtilization).name);
    assert_eq!(known.get_display_name(), "CPU");
    assert_eq!(known.get_current_value(), 1.5f64.to_bits());
    let unknown = UnifiedMetricData::Dynamic(dynamic("NetworkIn", "Network In"));
    let definition = unknown.get_definition();
    assert_eq!(definition.name, "Network In");
    assert_eq!(definition.display_format, DisplayFormat::Decimal(2));
    assert!(definition.thresholds.is_none());
    assert_eq!(definition.color, MetricColor::Fixed(Color::Gray));
    assert_eq!(definition.description, "Dynamic metric from CloudWatch");
}

#[test]
fn unified_list_prefers_discovered_metrics_by_name() {
    let mut app = App::default();
    app.selected_service = Some(AwsService::Sqs);
    app.dynamic_metrics = Some(DynamicMetrics {
        metrics: vec![dynamic("B", "Beta"), dynamic("A", "Alpha"), dynamic("C", "Alpha")],
    });
    let list = AwsMetricsGrid::collect_unified_metrics(&app);
    let names: Vec<String> = list.iter().map(|m| m.get_display_name()).collect();
    assert_eq!(names, vec!["Alpha", "Alpha", "Beta"]);
    match &list[1] {
        UnifiedMetricData::Dynamic(d) => assert_eq!(d.metric_name, "C"),
        _ => panic!("expected a discovered metric"),
    }
}

#[test]
fn unified_list_of_predefined_database_metrics() {
    let mut app = App::default();
    app.selected_service = Some(AwsService::Rds);
    app.metrics.timestamps = vec![5];
    app.metrics.series = vec![
        series(MetricType::WriteLatency),
        series(MetricType::CpuUtilization),
        series(MetricType::ApproximateNumberOfMessages),
    ];
    let list = AwsMetricsGrid::collect_unified_metrics(&app);
    assert_eq!(list.len(), 2);
    let mut names: Vec<String> = list.iter().map(|m| m.get_display_name()).collect();
    let sorted = {
        let mut s = names.clone();
        s.sort();
        s
    };
    assert_eq!(names, sorted);
    names.dedup();
    assert_eq!(names.len(), 2);
    app.selected_service = Some(AwsService::Sqs);
    assert!(AwsMetricsGrid::collect_unified_metrics(&app).is_empty());
}

#[test]
fn unified_views() {
    let mut app = App::default();
    assert!(matches!(AwsMetricsGrid::unified_view(&app), UnifiedView::NoService));
    app.selected_service = Some(AwsService::Rds);
    match AwsMetricsGrid::unified_view(&app) {
        UnifiedView::NoMetrics { title, message, role } => {
            assert_eq!(title, "RDS Metrics");
            assert!(message.starts_with("No RDS instances found.\n"));
            assert_eq!(role, ThemeColor::Info);
        }
        _ => panic!("expected the no-metrics box"),
    }
    app.selected_service = Some(AwsService::Sqs);
    match AwsMetricsGrid::unified_view(&app) {
        UnifiedView::NoMetrics { title, message, role } => {
            assert_eq!(title, "SQS Metrics");
            assert_eq!(message, "No metrics available for this service.");
            assert_eq!(role, ThemeColor::Warning);
        }
        _ => panic!("expected the no-metrics box"),
    }
    let metrics: Vec<DynamicMetricData> =
        ["e", "d", "c", "b", "a"].iter().map(|n| dynamic(n, &n.to_uppercase())).collect();
    app.dynamic_metrics = Some(DynamicMetrics { metrics });
    app.sparkline_grid_selected = Some(4);
    match AwsMetricsGrid::unified_view(&app) {
        UnifiedView::Metrics { metrics, layout, selected } => {
            assert_eq!(metrics.len(), 1);
            assert_eq!(metrics[0].get_display_name(), "E");
            assert_eq!(layout, GridLayout { rows: 1, cols: 2 });
            assert_eq!(selected, 0);
        }
        _ => panic!("expected metrics"),
    }
}
