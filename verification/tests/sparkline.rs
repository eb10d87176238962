use cloudwatch_tui::charts::sparkline::{sample_data, sample_sparkline_data};
use cloudwatch_tui::components::sparkline_utils::generate_flat_sparkline;

fn bits(v: &[f64]) -> Vec<u64> {
    v.iter().map(|x| x.to_bits()).collect()
}

#[test]
fn test_sample_data() {
    let history = bits(&[1.0, 2.0, 3.0, 4.0, 5.0]);
    let sampled = sample_data(&history, 3);
    assert_eq!(sampled.len(), 3);
    assert_eq!(f64::from_bits(sampled[0]), 1.0);
    assert_eq!(f64::from_bits(sampled[2]), 5.0);
}

#[test]
fn sampling_positions() {
    let history: Vec<u64> = (0..11).collect();
    assert_eq!(sample_data(&history, 5), vec![0, 2, 5, 7, 10]);
    assert_eq!(sample_data(&history, 11), history);
    assert_eq!(sample_data(&history, 20), history);
    assert_eq!(sample_data(&history, 0), Vec::<u64>::new());
    assert_eq!(sample_data(&history, 2), vec![0, 10]);
}

#[test]
fn sparkline_sampling_handles_one_sample() {
    let history: Vec<u64> = (0..7).collect();
    assert_eq!(sample_sparkline_data(&history, 1), vec![0]);
    assert_eq!(sample_sparkline_data(&history, 3), vec![0, 3, 6]);
    assert_eq!(sample_sparkline_data(&[], 3), Vec::<u64>::new());
}

#[test]
fn sampling_keeps_first_and_last() {
    let history: Vec<u64> = (100..137).collect();
    for target in 2..37 {
        let s = sample_data(&history, target);
        assert_eq!(s.len(), target);
        assert_eq!(s[0], 100);
        assert_eq!(s[target - 1], 136);
    }
}

#[test]
fn flat_sparklines() {
    assert_eq!(generate_flat_sparkline(0), "");
    assert_eq!(generate_flat_sparkline(2), "⣿⣿");
    assert_eq!(generate_flat_sparkline(5), "⣿⣤⣤⣤⣿");
}
