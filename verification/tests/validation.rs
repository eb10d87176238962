use cloudwatch_tui::charts::validation::{
    is_finite, sanitize_metric_data, validate_metric_data, validate_timestamps_available,
};
use cloudwatch_tui::charts::data_collector::get_timestamps_for_app;
use cloudwatch_tui::models::{App, AwsService, DynamicMetricData, DynamicMetrics};

fn bits(v: &[f64]) -> Vec<u64> {
    v.iter().map(|x| x.to_bits()).collect()
}

const NOW: u64 = 1_700_000_000;

#[test]
fn test_validate_metric_data_empty() {
    let result = validate_metric_data(&[], &[]);
    assert!(result.is_err());
}

#[test]
fn test_validate_metric_data_mismatch() {
    let history = bits(&[1.0, 2.0]);
    let timestamps = vec![NOW];
    let result = validate_metric_data(&history, &timestamps);
    assert!(result.is_err());
}

#[test]
fn test_validate_metric_data_invalid_values() {
    let history = bits(&[1.0, f64::NAN, 3.0]);
    let timestamps = vec![NOW; 3];
    let result = validate_metric_data(&history, &timestamps);
    assert!(result.is_err());
}

#[test]
fn test_validate_metric_data_valid() {
    let history = bits(&[1.0, 2.0, 3.0]);
    let timestamps = vec![NOW; 3];
    let result = validate_metric_data(&history, &timestamps);
    assert!(result.is_ok());
}

#[test]
fn test_sanitize_metric_data() {
    let history = bits(&[1.0, f64::NAN, 3.0, f64::INFINITY]);
    let timestamps = vec![NOW; 4];
    let (clean_history, clean_timestamps) = sanitize_metric_data(&history, &timestamps);
    assert_eq!(clean_history.len(), 2);
    assert_eq!(clean_timestamps.len(), 2);
    assert_eq!(clean_history, bits(&[1.0, 3.0]));
}

#[test]
fn validation_error_messages() {
    assert_eq!(validate_metric_data(&bits(&[1.0]), &[]), Err("Empty data arrays".to_string()));
    assert_eq!(
        validate_metric_data(&bits(&[1.0, 2.0]), &[NOW]),
        Err("Data length mismatch: history has 2 points, timestamps has 1 points".to_string())
    );
    assert_eq!(
        validate_metric_data(&bits(&[1.0, f64::NAN, f64::INFINITY]), &[NOW; 3]),
        Err("Invalid value at index 1: NaN".to_string())
    );
    assert_eq!(
        validate_metric_data(&bits(&[f64::NEG_INFINITY]), &[NOW]),
        Err("Invalid value at index 0: -inf".to_string())
    );
    assert_eq!(
        validate_metric_data(&bits(&[0.5; 12]).into_iter().chain(bits(&[f64::INFINITY])).collect::<Vec<_>>(), &[NOW; 13]),
        Err("Invalid value at index 12: inf".to_string())
    );
}

#[test]
fn finiteness_of_bit_patterns() {
    assert!(is_finite(0.0f64.to_bits()));
    assert!(is_finite((-1.5e300f64).to_bits()));
    assert!(is_finite(f64::MIN_POSITIVE.to_bits()));
    assert!(!is_finite(f64::NAN.to_bits()));
    assert!(!is_finite(f64::INFINITY.to_bits()));
    assert!(!is_finite(f64::NEG_INFINITY.to_bits()));
}

#[test]
fn sanitizing_pairs_up_to_the_shorter_series() {
    let history = bits(&[1.0, 2.0, 3.0]);
    let (h, t) = sanitize_metric_data(&history, &[10, 20]);
    assert_eq!(h, bits(&[1.0, 2.0]));
    assert_eq!(t, vec![10, 20]);
    let (h, t) = sanitize_metric_data(&bits(&[f64::NAN, 4.0]), &[10, 20, 30]);
    assert_eq!(h, bits(&[4.0]));
    assert_eq!(t, vec![20]);
}

#[test]
fn valid_data_passes_sanitizing_unchanged() {
    let history = bits(&[1.0, -2.0, 3.5]);
    let timestamps = vec![1, 2, 3];
    assert!(validate_metric_data(&history, &timestamps).is_ok());
    let (h, t) = sanitize_metric_data(&history, &timestamps);
    assert_eq!(h, history);
    assert_eq!(t, timestamps);
}

fn dynamic(timestamps: Vec<u64>) -> DynamicMetricData {
    DynamicMetricData {
        metric_name: "M".to_string(),
        display_name: "M".to_string(),
        current_value: 0,
        history: vec![],
        timestamps,
        unit: None,
    }
}

#[test]
fn timestamps_available_exactly_when_found() {
    let mut apps = Vec::new();
    let mut a = App::default();
    apps.push(a.clone());
    a.metrics.timestamps = vec![5];
    apps.push(a.clone());
    a.selected_service = Some(AwsService::Sqs);
    apps.push(a.clone());
    a.dynamic_metrics = Some(DynamicMetrics { metrics: vec![] });
    apps.push(a.clone());
    a.dynamic_metrics = Some(DynamicMetrics { metrics: vec![dynamic(vec![]), dynamic(vec![9])] });
    apps.push(a.clone());
    a.dynamic_metrics = Some(DynamicMetrics { metrics: vec![dynamic(vec![])] });
    apps.push(a.clone());
    let expected = [false, true, false, false, true, false];
    for (app, want) in apps.iter().zip(expected) {
        assert_eq!(validate_timestamps_available(app), want);
        assert_eq!(get_timestamps_for_app(app).is_some(), want);
    }
}
