use cloudwatch_tui::components::metric_utils::get_available_metrics_with_history;
use cloudwatch_tui::components::page::lifecycle::{LifecycleState, PageLifecycle};
use cloudwatch_tui::models::{MetricData, MetricSeries, MetricType};

#[test]
fn initialized_survives_every_operation() {
    let mut lc = PageLifecycle::new();
    assert!(!lc.is_initialized());
    lc.set_state(LifecycleState::Updating);
    assert!(!lc.is_initialized());
    lc.mark_initialized();
    assert!(lc.is_initialized() && lc.is_active());
    lc.mark_updating();
    lc.mark_updated();
    assert!(lc.is_active() && lc.is_initialized());
    assert_eq!(lc.update_count(), 1);
    lc.set_error("lost connection".to_string());
    assert!(lc.is_error() && lc.is_initialized());
    assert_eq!(lc.error_message().map(|m| m.as_str()), Some("lost connection"));
    lc.set_state(LifecycleState::Initializing);
    lc.mark_destroying();
    assert_eq!(lc.state(), &LifecycleState::Destroying);
    assert!(lc.is_initialized());
}

#[test]
fn becoming_active_initializes() {
    let mut lc = PageLifecycle::default();
    lc.set_state(LifecycleState::Active);
    assert!(lc.is_initialized());
    assert!(lc.time_since_update().is_none());
    lc.mark_updated();
    assert!(lc.time_since_update().is_some());
}

#[test]
fn history_rows_follow_the_series_with_readings() {
    let metrics = MetricData {
        timestamps: vec![1, 2],
        series: vec![
            MetricSeries { metric_type: MetricType::CpuUtilization, current_value: 42.5f64.to_bits(), history: vec![1.0f64.to_bits(), 2.0f64.to_bits()] },
            MetricSeries { metric_type: MetricType::ReadIops, current_value: 0, history: vec![] },
            MetricSeries { metric_type: MetricType::FreeStorageSpace, current_value: 7, history: vec![7] },
        ],
    };
    let rows = get_available_metrics_with_history(&metrics);
    assert_eq!(rows.len(), 2);
    assert_eq!(rows[0].0, "CPU Utilization");
    assert_eq!(f64::from_bits(rows[0].1), 42.5);
    assert_eq!(rows[0].2, &vec![1.0f64.to_bits(), 2.0f64.to_bits()]);
    assert_eq!(rows[0].3, "Percent");
    assert_eq!((rows[1].0, rows[1].1, rows[1].3), ("Free Storage Space", 7, "Bytes"));
    let empty = MetricData { timestamps: vec![], series: vec![] };
    assert!(get_available_metrics_with_history(&empty).is_empty());
}
