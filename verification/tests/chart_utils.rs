use cloudwatch_tui::charts::chart_utils::{color_for_lowercase_name, get_dynamic_metric_color, metric_name_hash};
use cloudwatch_tui::charts::formatter::{dynamic_value_format, value_kind_for_lowercase, ValueKind};
use cloudwatch_tui::models::DynamicMetricData;
use cloudwatch_tui::style::Color;

#[test]
fn test_get_dynamic_metric_color() {
    assert_eq!(get_dynamic_metric_color("CPUUtilization"), Color::Red);
    assert_eq!(get_dynamic_metric_color("MemoryUtilization"), Color::Blue);
    assert_eq!(get_dynamic_metric_color("NetworkIn"), Color::Cyan);
}

#[test]
fn keyword_groups_decide_in_order() {
    assert_eq!(get_dynamic_metric_color("DiskQueue"), Color::Green);
    assert_eq!(get_dynamic_metric_color("FreeStorageSpace"), Color::Green);
    assert_eq!(get_dynamic_metric_color("FreeableMemory"), Color::Blue);
    assert_eq!(get_dynamic_metric_color("RAMUsage"), Color::Blue);
    assert_eq!(get_dynamic_metric_color("DatabaseConnections"), Color::Yellow);
    assert_eq!(get_dynamic_metric_color("ReadLatency"), Color::Magenta);
    assert_eq!(get_dynamic_metric_color("ErrorCount"), Color::Yellow);
    assert_eq!(get_dynamic_metric_color("Faults"), Color::LightRed);
    assert_eq!(get_dynamic_metric_color("ReadThroughput"), Color::LightBlue);
    // "cpu" wins over "bytes".
    assert_eq!(get_dynamic_metric_color("CPUBytes"), Color::Red);
}

#[test]
fn unknown_names_hash_to_a_colour() {
    // h("") = 0 -> Blue; h("A") = 65 -> 65 % 8 = 1 -> Green; h("AB") = 65*31+66 = 2081 -> 1 -> Green.
    assert_eq!(metric_name_hash(""), 0);
    assert_eq!(metric_name_hash("A"), 65);
    assert_eq!(metric_name_hash("AB"), 2081);
    assert_eq!(get_dynamic_metric_color(""), Color::Blue);
    assert_eq!(get_dynamic_metric_color("A"), Color::Green);
    // "Z" = 90 -> 2 -> Cyan; "Q" = 81 -> 1 -> Green; "W" = 87 -> 7 -> LightCyan.
    assert_eq!(get_dynamic_metric_color("Z"), Color::Cyan);
    assert_eq!(get_dynamic_metric_color("W"), Color::LightCyan);
    // The hash wraps at 32 bits.
    let long = "x".repeat(40);
    let mut h: u32 = 0;
    for c in long.chars() {
        h = h.wrapping_mul(31).wrapping_add(c as u32);
    }
    assert_eq!(metric_name_hash(&long), h);
}

#[test]
fn colour_from_lowercase_name_is_exact() {
    assert_eq!(color_for_lowercase_name("cpuutilization", "Anything"), Color::Red);
    // Keywords are looked up in the lower-cased name only.
    // h("CPU") = (67 * 31 + 80) * 31 + 85 = 66952, 66952 % 8 = 0.
    assert_eq!(color_for_lowercase_name("x", "CPU"), Color::Blue);
}

#[test]
fn value_kinds_by_name() {
    assert_eq!(value_kind_for_lowercase("networkbytesin"), ValueKind::Bytes);
    assert_eq!(value_kind_for_lowercase("sentmessagesize"), ValueKind::Bytes);
    assert_eq!(value_kind_for_lowercase("cpuutilization"), ValueKind::Percent);
    assert_eq!(value_kind_for_lowercase("databaseconnections"), ValueKind::Count);
    assert_eq!(value_kind_for_lowercase("readlatency"), ValueKind::Duration);
    assert_eq!(value_kind_for_lowercase("readiops"), ValueKind::Generic);
}

#[test]
fn dynamic_value_uses_latest_reading() {
    let mut m = DynamicMetricData {
        metric_name: "ReadLatency".to_string(),
        display_name: "Read Latency".to_string(),
        current_value: 0,
        history: vec![],
        timestamps: vec![],
        unit: None,
    };
    assert_eq!(dynamic_value_format(&m), None);
    m.history = vec![1.0f64.to_bits(), 2.5f64.to_bits()];
    assert_eq!(dynamic_value_format(&m), Some((ValueKind::Duration, 2.5f64.to_bits())));
}
