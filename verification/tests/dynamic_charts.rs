use cloudwatch_tui::models::DynamicMetricData;

#[test]
fn test_dynamic_metric_data_validation() {
    let metric_data = DynamicMetricData {
        metric_name: "CPUUtilization".to_string(),
        display_name: "CPU Utilization".to_string(),
        current_value: 75.0f64.to_bits(),
        history: vec![60.0f64.to_bits(), 65.0f64.to_bits(), 70.0f64.to_bits(), 75.0f64.to_bits()],
        timestamps: vec![1_700_000_000u64; 4],
        unit: Some("Percent".to_string()),
    };

    assert!(!metric_data.history.is_empty());
    assert_eq!(metric_data.history.len(), metric_data.timestamps.len());
    assert!(metric_data.unit.is_some());
}
