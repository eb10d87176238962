use cloudwatch_tui::charts::labels::{time_label_texts, x_label_texts};
use cloudwatch_tui::charts::labels::time_label_stamps;
use cloudwatch_tui::time::{clock_text, utc_time_label, MAX_CLOCK_SECS};

#[test]
fn utc_labels() {
    assert_eq!(utc_time_label(0), "00:00");
    assert_eq!(utc_time_label(3661), "01:01");
    assert_eq!(utc_time_label(86_399), "23:59");
    assert_eq!(utc_time_label(1_700_000_000), "22:13");
    // Beyond the calendar: the epoch.
    assert_eq!(utc_time_label(u64::MAX / 2), "00:00");
}

#[test]
fn x_labels_pick_first_middle_last() {
    assert_eq!(x_label_texts(&[]), vec!["No data".to_string()]);
    assert_eq!(x_label_texts(&[0, 60, 120]), vec!["00:00", "00:01", "00:02"]);
    let ts: Vec<u64> = (0..7).map(|i| i * 3600).collect();
    assert_eq!(x_label_texts(&ts), vec!["00:00", "03:00", "06:00"]);
}

#[test]
fn time_labels_in_the_local_zone() {
    assert_eq!(time_label_texts(&[], &[]), vec!["No data".to_string()]);
    let ts: Vec<u64> = (0..10).map(|i| i * 3600).collect();
    let offsets = vec![7200; 10];
    // Positions 0, 3, 6 and 9, two hours east of UTC.
    assert_eq!(time_label_texts(&ts, &offsets), vec!["02:00", "05:00", "08:00", "11:00"]);
    assert_eq!(time_label_texts(&ts[..2], &[0, -1800]), vec!["00:00", "00:30"]);
    assert_eq!(time_label_texts(&[1_700_000_000], &[0]), vec!["22:13"]);
}

#[test]
fn time_label_stamps_are_evenly_spaced() {
    assert_eq!(time_label_stamps(&[]), Vec::<u64>::new());
    assert_eq!(time_label_stamps(&[5]), vec![5]);
    assert_eq!(time_label_stamps(&[5, 6, 7]), vec![5, 6, 7]);
    let ts: Vec<u64> = (0..10).collect();
    assert_eq!(time_label_stamps(&ts), vec![0, 3, 6, 9]);
    let ts: Vec<u64> = (0..8).collect();
    assert_eq!(time_label_stamps(&ts), vec![0, 2, 4, 7]);
}

#[test]
fn clock_texts() {
    assert_eq!(clock_text(0, 0, false), "00:00");
    assert_eq!(clock_text(0, 0, true), "00:00:00");
    assert_eq!(clock_text(3661, 0, true), "01:01:01");
    // West of UTC the clock reads the previous day.
    assert_eq!(clock_text(0, -3600, true), "23:00:00");
    assert_eq!(clock_text(86_399, 1, true), "00:00:00");
    assert_eq!(clock_text(1_700_000_000, 19_800, false), "03:43");
    assert_eq!(clock_text(1_700_000_000, -86_399, true), "22:13:21");
    assert_eq!(clock_text(u64::MAX, 0, true), "07:00:15");
}

#[test]
fn calendar_limit() {
    assert_eq!(utc_time_label(MAX_CLOCK_SECS), "23:59");
    assert_eq!(utc_time_label(MAX_CLOCK_SECS + 1), "00:00");
}
