use cloudwatch_tui::charts::grid_layout::GridLayout;
use cloudwatch_tui::components::aws_chart::{
    chart_cell_areas, grid_column_constraints, grid_row_constraints, time_offsets, AwsMetricsGrid, GridView,
};
use cloudwatch_tui::layout::{Constraint, Rect};
use cloudwatch_tui::models::{App, AwsService, MetricSeries, MetricType};

fn series(metric_type: MetricType, current: f64, history: &[f64]) -> MetricSeries {
    MetricSeries {
        metric_type,
        current_value: current.to_bits(),
        history: history.iter().map(|v| v.to_bits()).collect(),
    }
}

fn rds_app(types: &[MetricType]) -> App {
    let mut app = App::default();
    app.selected_service = Some(AwsService::Rds);
    app.metrics.timestamps = vec![100, 160, 220];
    for (i, t) in types.iter().enumerate() {
        app.metrics.series.push(series(*t, i as f64, &[1.0, 2.0, i as f64]));
    }
    app
}

const SIX: [MetricType; 6] = [
    MetricType::CpuUtilization,
    MetricType::DatabaseConnections,
    MetricType::FreeStorageSpace,
    MetricType::ReadLatency,
    MetricType::WriteLatency,
    MetricType::ReadIops,
];

#[test]
fn grid_view_without_service_draws_nothing() {
    let app = App::default();
    assert!(matches!(AwsMetricsGrid::grid_view(&app), GridView::NoService));
}

#[test]
fn grid_view_without_readings_has_no_metrics() {
    let mut app = rds_app(&[]);
    app.metrics.series.push(series(MetricType::CpuUtilization, 0.0, &[]));
    assert!(matches!(AwsMetricsGrid::grid_view(&app), GridView::NoMetrics));
}

#[test]
fn grid_view_with_only_foreign_metrics_is_loading() {
    // A queue metric among the database's series has readings but no chart.
    let app = rds_app(&[MetricType::ApproximateNumberOfMessages]);
    assert!(matches!(AwsMetricsGrid::grid_view(&app), GridView::Loading));
}

#[test]
fn grid_view_first_screen() {
    let app = rds_app(&SIX);
    match AwsMetricsGrid::grid_view(&app) {
        GridView::Charts { charts, layout, selected } => {
            assert_eq!(charts.len(), 4);
            assert_eq!(charts[0].metric_type, MetricType::CpuUtilization);
            assert_eq!(charts[3].metric_type, MetricType::ReadLatency);
            assert_eq!(charts[1].current_value, 1.0f64.to_bits());
            assert_eq!(charts[1].timestamps, vec![100, 160, 220]);
            assert_eq!(layout, GridLayout { rows: 2, cols: 2 });
            assert_eq!(selected, 0);
        }
        _ => panic!("expected charts"),
    }
}

#[test]
fn grid_view_second_screen_and_clamped_selection() {
    let mut app = rds_app(&SIX);
    app.sparkline_grid_selected = Some(17);
    match AwsMetricsGrid::grid_view(&app) {
        GridView::Charts { charts, layout, selected } => {
            assert_eq!(charts.len(), 2);
            assert_eq!(charts[0].metric_type, MetricType::WriteLatency);
            assert_eq!(charts[1].metric_type, MetricType::ReadIops);
            assert_eq!(layout, GridLayout { rows: 1, cols: 2 });
            assert_eq!(selected, 1);
        }
        _ => panic!("expected charts"),
    }
}

#[test]
fn grid_view_skips_series_without_readings() {
    let mut app = rds_app(&SIX[..3]);
    app.metrics.series[1].history.clear();
    match AwsMetricsGrid::grid_view(&app) {
        GridView::Charts { charts, .. } => {
            let types: Vec<MetricType> = charts.iter().map(|c| c.metric_type).collect();
            assert_eq!(types, vec![MetricType::CpuUtilization, MetricType::FreeStorageSpace]);
        }
        _ => panic!("expected charts"),
    }
}

#[test]
fn grid_view_of_queues() {
    let mut app = App::default();
    app.selected_service = Some(AwsService::Sqs);
    app.sqs_metrics.timestamps = vec![5];
    app.sqs_metrics.series.push(series(MetricType::NumberOfMessagesSent, 3.0, &[3.0]));
    match AwsMetricsGrid::grid_view(&app) {
        GridView::Charts { charts, layout, selected } => {
            assert_eq!(charts.len(), 1);
            assert_eq!(charts[0].metric_type, MetricType::NumberOfMessagesSent);
            assert_eq!(layout, GridLayout { rows: 1, cols: 2 });
            assert_eq!(selected, 0);
        }
        _ => panic!("expected charts"),
    }
}

#[test]
fn row_constraints_use_minimum_height_when_room() {
    assert_eq!(grid_row_constraints(2, 24), vec![Constraint::Min(12), Constraint::Min(12)]);
    assert_eq!(grid_row_constraints(2, 23), vec![Constraint::Percentage(50), Constraint::Percentage(50)]);
    assert_eq!(grid_row_constraints(3, 20), vec![Constraint::Percentage(33); 3]);
    assert!(grid_row_constraints(0, 0).is_empty());
}

#[test]
fn column_constraints_split_evenly() {
    assert_eq!(grid_column_constraints(2), vec![Constraint::Percentage(50); 2]);
    assert_eq!(grid_column_constraints(3), vec![Constraint::Percentage(33); 3]);
    assert!(grid_column_constraints(0).is_empty());
}

#[test]
fn chart_cell_split_and_body_choice() {
    let area = Rect { x: 0, y: 0, width: 40, height: 20 };
    let (title, body, series) = chart_cell_areas(area, 3);
    assert_eq!(title, Rect { x: 0, y: 0, width: 40, height: 3 });
    assert_eq!(body, Rect { x: 0, y: 3, width: 40, height: 17 });
    assert!(series);
    let (_, _, series) = chart_cell_areas(area, 0);
    assert!(!series);
    let (_, body, series) = chart_cell_areas(Rect { x: 0, y: 0, width: 40, height: 10 }, 3);
    assert_eq!(series, body.height >= 8);
}

#[test]
fn time_offsets_count_from_first_timestamp() {
    assert_eq!(time_offsets(&[100, 160, 220], 3), vec![0, 60, 120]);
    assert_eq!(time_offsets(&[100, 160, 220], 2), vec![0, 60]);
    assert_eq!(time_offsets(&[100, 90, 220], 5), vec![0, 0, 120]);
    assert!(time_offsets(&[], 4).is_empty());
}
