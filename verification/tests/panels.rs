use cloudwatch_tui::charts::chart_data::MetricChartData;
use cloudwatch_tui::charts::error_display::{
    auth_error_notice, data_validation_error_notice, error_chart_notice, error_message_notice, error_popup,
    loading_notice, no_data_notice, timeout_notice,
};
use cloudwatch_tui::charts::time_series::{error_chart_text, plot_points};
use cloudwatch_tui::components::aws_chart::chart_cell_areas;
use cloudwatch_tui::components::border_factory::{
    create_theme_border_style, create_theme_border_style_with_focus_override, create_theme_status_border_style,
    get_theme_border_color, validate_border_consistency,
};
use cloudwatch_tui::components::instance::{sqs_detail_lines, status_color_of};
use cloudwatch_tui::components::instance_details::instance_info_lines;
use cloudwatch_tui::components::list_styling::{
    create_border_style, create_header_style, create_highlight_style, Alignment, BorderStatus, LayoutStyle, ListColors,
};
use cloudwatch_tui::components::metrics_summary::{summary_body, summary_controls_text, SummaryBody};
use cloudwatch_tui::components::page::overlays::{OverlayPlan, OverlayRenderer, OverlayType};
use cloudwatch_tui::components::page::pages::{InstanceDetailsPage, InstanceListContent, ServiceListPage};
use cloudwatch_tui::components::service_selector::{service_item_style, service_list_border_style};
use cloudwatch_tui::components::style_guide::{color_palette_items, component_demo_items, layout_example_items};
use cloudwatch_tui::components::time_range_utils::{
    absolute_time_picker_border, needs_scrollbar, period_panel_title, period_seconds_text, time_panel_title,
    timezone_panel_title,
};
use cloudwatch_tui::components::universal_box::{empty_text, paragraph_areas, BoxContent, Borders, UniversalBox};
use cloudwatch_tui::layout::{centered_rect, Rect};
use cloudwatch_tui::models::{App, AwsService, MetricType, RdsInstance, TimeRangeMode};
use cloudwatch_tui::style::{Color, TextStyle, UnifiedTheme};

fn theme() -> UnifiedTheme {
    UnifiedTheme {
        primary: Color::White,
        secondary: Color::Gray,
        tertiary: Color::DarkGray,
        accent: Color::Yellow,
        success: Color::Green,
        warning: Color::LightYellow,
        error: Color::Red,
        info: Color::Blue,
        muted: Color::Indexed(8),
        background: Color::Black,
        selected: Color::Rgb(255, 200, 0),
        selected_text: Color::Black,
        focused: Color::LightRed,
        separator: Color::Indexed(240),
        progress_bg: Color::Indexed(236),
        progress_fg: Color::Cyan,
        border: Color::Indexed(244),
        border_focused: Color::LightCyan,
        chart_primary: Color::Rgb(1, 2, 3),
        chart_secondary: Color::Rgb(4, 5, 6),
        chart_accent: Color::Rgb(7, 8, 9),
    }
}

fn fg(c: Color) -> TextStyle {
    TextStyle { fg: Some(c), bg: None, bold: false }
}

#[test]
fn test_dynamic_chart_layout() {
    let area = Rect { x: 0, y: 0, width: 80, height: 20 };
    let (title, body, _) = chart_cell_areas(area, 4);
    assert_eq!(title.height, 3);
    assert!(body.height >= 8);
}

#[test]
fn test_metric_chart_layout() {
    let area = Rect { x: 0, y: 0, width: 80, height: 20 };
    let (title, body, draws_series) = chart_cell_areas(area, 4);
    assert_eq!(title.height, 3);
    assert!(body.height >= 8);
    assert!(draws_series);
}

#[test]
fn test_chart_data_validation() {
    let chart_data = MetricChartData {
        metric_type: MetricType::CpuUtilization,
        current_value: 75.0f64.to_bits(),
        history: vec![60.0f64.to_bits(), 65.0f64.to_bits(), 70.0f64.to_bits(), 75.0f64.to_bits()],
        timestamps: vec![1_700_000_000u64; 4],
    };
    assert!(!chart_data.history.is_empty());
    assert_eq!(chart_data.history.len(), chart_data.timestamps.len());
}

#[test]
fn test_border_color_logic() {
    let theme = theme();
    let focused_color = theme.focused;
    let normal_color = theme.border;

    let border_color = if true { theme.focused } else { theme.border };
    assert_eq!(border_color, focused_color);

    let border_color = if false { theme.focused } else { theme.border };
    assert_eq!(border_color, normal_color);
}

#[test]
fn border_styles_follow_the_theme() {
    let t = theme();
    assert_eq!(create_theme_border_style(&t, true), fg(Color::LightCyan));
    assert_eq!(create_theme_border_style(&t, false), fg(Color::Indexed(244)));
    assert_eq!(get_theme_border_color(&t, true), Color::LightCyan);
    assert_eq!(create_theme_border_style_with_focus_override(&t, true, Color::Magenta), fg(Color::Magenta));
    assert_eq!(create_theme_border_style_with_focus_override(&t, false, Color::Magenta), fg(Color::Indexed(244)));
    assert!(validate_border_consistency(&fg(Color::LightCyan), &t, true));
    assert!(!validate_border_consistency(&fg(Color::LightCyan), &t, false));
    assert!(!validate_border_consistency(&TextStyle { fg: None, bg: None, bold: false }, &t, false));
    assert_eq!(create_theme_status_border_style(&t, BorderStatus::Error), fg(Color::Red));
    assert_eq!(create_theme_status_border_style(&t, BorderStatus::Warning), fg(Color::LightYellow));
    assert_eq!(create_theme_status_border_style(&t, BorderStatus::Info), fg(Color::Blue));
    assert_eq!(create_theme_status_border_style(&t, BorderStatus::Normal), fg(Color::Indexed(244)));
}

#[test]
fn list_colours_from_theme() {
    let c = ListColors::from_theme(&theme());
    assert_eq!(c.selected, Color::Black);
    assert_eq!(c.highlight, Color::Rgb(255, 200, 0));
    assert_eq!(c.dim, Color::DarkGray);
    assert_eq!(c.border, Color::Indexed(244));
    assert_eq!(create_header_style(true, &c), TextStyle { fg: Some(Color::LightRed), bg: None, bold: true });
    assert_eq!(create_header_style(false, &c), TextStyle { fg: Some(Color::Yellow), bg: None, bold: true });
    assert_eq!(
        create_highlight_style(&c),
        TextStyle { fg: Some(Color::Black), bg: Some(Color::Rgb(255, 200, 0)), bold: true }
    );
    assert_eq!(create_border_style(false, &c), fg(Color::Indexed(244)));
    assert_eq!(create_border_style(true, &c), fg(Color::LightRed));
}

#[test]
fn chart_notices() {
    let n = error_message_notice("boom");
    assert_eq!((n.title.as_str(), n.message.as_str()), ("Error", "boom"));
    assert_eq!((n.status, n.alignment), (BorderStatus::Error, Alignment::Center));
    assert_eq!(error_chart_notice("x").title, "Chart Error");
    let n = data_validation_error_notice("CPU", "bad value");
    assert_eq!(n.title, "Data Validation Error: CPU");
    assert_eq!(
        n.message,
        "Failed to validate metric data:\n\nbad value\n\nPlease check your data source and try refreshing."
    );
    assert_eq!(n.alignment, Alignment::Left);
    let n = no_data_notice("Queue Depth");
    assert_eq!(n.message, "No data available for: Queue Depth");
    assert_eq!(n.status, BorderStatus::Warning);
    let n = loading_notice();
    assert_eq!((n.title.as_str(), n.message.as_str(), n.status), ("Loading", "Loading metric data...", BorderStatus::Info));
    let n = timeout_notice("RDS");
    assert!(n.message.starts_with("Timeout loading RDS metrics.\n\nThis may be due to:\n• Network"));
    assert!(n.message.ends_with("checking your connection."));
    assert_eq!(auth_error_notice().title, "Authentication Error");
    assert!(auth_error_notice().message.contains("AWS_PROFILE"));
    let area = Rect { x: 0, y: 0, width: 100, height: 50 };
    let (popup, n) = error_popup(area, "Oops", "msg");
    assert_eq!(popup, centered_rect(60, 40, area));
    assert_eq!((n.title.as_str(), n.message.as_str()), ("Oops", "msg"));
}

#[test]
fn universal_box_builders() {
    let t = theme();
    let b = UniversalBox::new(t);
    assert!(b.title.is_none());
    assert_eq!(b.borders, Borders::all());
    assert!(matches!(b.content_type, BoxContent::Empty { ref message, suggestion: None } if message == "No content"));
    let b = b.title("T").focused(true).text_wrapped("hello");
    assert_eq!(b.title.as_deref(), Some("T"));
    assert!(b.is_focused);
    assert!(matches!(b.content_type, BoxContent::Text { ref text, alignment: Alignment::Left, wrap: true, style_override: None } if text == "hello"));
    assert_eq!(b.border_style(), fg(Color::LightCyan));
    let none = Borders { top: false, right: false, bottom: false, left: false };
    let b = UniversalBox::info("Info", "note", t).borders(none);
    assert_eq!(b.borders, none);
    assert!(matches!(b.content_type, BoxContent::Text { ref text, style_override: Some(s), .. } if text == "note" && s == fg(Color::Blue)));
    let b = UniversalBox::header("Top", t);
    assert!(matches!(b.content_type, BoxContent::Text { ref text, .. } if text == "AWS CloudWatch TUI"));
    let b = UniversalBox::error_box("E", "bad", t);
    assert!(matches!(b.content_type, BoxContent::Error { ref message } if message == "bad"));
    let b = UniversalBox::loading_box("L", "wait", t);
    assert!(matches!(b.content_type, BoxContent::Loading { ref message } if message == "wait"));
    let b = UniversalBox::new(t).empty_with_suggestion("Nothing", "Try again");
    assert!(matches!(b.content_type, BoxContent::Empty { suggestion: Some(ref s), .. } if s == "Try again"));
    assert!(matches!(UniversalBox::new(t).custom().content_type, BoxContent::Custom));
}

#[test]
fn universal_box_texts_and_areas() {
    assert_eq!(empty_text("Nothing", Some("Try again")), "Nothing\n\nTry again");
    assert_eq!(empty_text("Nothing", None), "Nothing");
    let inner = Rect { x: 1, y: 2, width: 10, height: 10 };
    let areas = paragraph_areas(inner, 3);
    assert_eq!(areas.len(), 3);
    assert_eq!(areas[0], Rect { x: 1, y: 2, width: 10, height: 3 });
    assert_eq!(areas[2], Rect { x: 1, y: 8, width: 10, height: 3 });
}

#[test]
fn time_series_points_and_errors() {
    let v = |x: f64| x.to_bits();
    assert_eq!(plot_points(&[], &[1]), Err("No data points"));
    assert_eq!(plot_points(&[v(1.0)], &[]), Err("No data points"));
    assert_eq!(plot_points(&[v(1.0), v(2.0)], &[10]), Err("Data length mismatch"));
    assert_eq!(plot_points(&[v(f64::NAN), v(f64::INFINITY)], &[10, 20]), Err("No valid data points"));
    assert_eq!(
        plot_points(&[v(1.0), v(f64::NAN), v(3.0)], &[100, 160, 220]),
        Ok(vec![(0, v(1.0)), (120, v(3.0))])
    );
    assert_eq!(error_chart_text("No data points"), "Error: No data points");
}

#[test]
fn time_panels() {
    assert!(!needs_scrollbar(8, 10));
    assert!(needs_scrollbar(9, 10));
    assert!(needs_scrollbar(1, 1));
    assert!(!needs_scrollbar(0, 0));
    let labels = vec!["1 minute".to_string(), "5 minutes".to_string()];
    assert_eq!(period_panel_title(&labels, 1), "Period (5 minutes)");
    assert_eq!(period_panel_title(&labels, 7), "Period (Unknown)");
    assert_eq!(time_panel_title(&labels, 0), "Time (1m)");
    assert_eq!(time_panel_title(&labels, 9), "Time (Unknown)");
    assert_eq!(timezone_panel_title("UTC"), "Timezone (UTC)");
    assert_eq!(period_seconds_text(300), "300s");
    assert_eq!(absolute_time_picker_border(true), Color::Green);
    assert_eq!(absolute_time_picker_border(false), Color::White);
}

#[test]
fn service_selector_styles() {
    let t = theme();
    assert_eq!(service_item_style(0, None, true, &t), TextStyle { fg: Some(Color::White), bg: None, bold: true });
    assert_eq!(service_item_style(1, Some(1), false, &t), fg(Color::White));
    assert_eq!(service_item_style(0, Some(1), true, &t), fg(Color::Gray));
    assert_eq!(service_list_border_style(true, &t), fg(Color::White));
    assert_eq!(service_list_border_style(false, &t), fg(Color::Gray));
}

#[test]
fn instance_information() {
    assert_eq!(status_color_of("available"), Color::Green);
    assert_eq!(status_color_of("stopped"), Color::Red);
    assert_eq!(status_color_of("modifying"), Color::Yellow);
    let db = RdsInstance {
        identifier: "db-1".to_string(),
        engine: "postgres".to_string(),
        status: "stopped".to_string(),
        instance_class: "db.t3.micro".to_string(),
        endpoint: None,
    };
    let lines = instance_info_lines(&db);
    assert_eq!(lines.len(), 2);
    assert_eq!(lines[0].len(), 8);
    assert_eq!(lines[0][4].text, "stopped");
    assert_eq!(lines[0][4].color, Some(Color::Red));
    assert_eq!(lines[0][2].color, None);
    assert_eq!(lines[1][1].text, "N/A");
    let q = cloudwatch_tui::models::SqsQueue {
        name: "jobs".to_string(),
        url: "https://sqs/jobs".to_string(),
        queue_type: "FIFO".to_string(),
    };
    let (name, kind, url) = sqs_detail_lines(&q);
    assert_eq!((name.as_str(), kind.as_str(), url.as_str()), ("Name: jobs", "Type: FIFO", "URL: https://sqs/jobs"));
}

#[test]
fn metrics_summary_screen() {
    let mut app = App::default();
    assert!(matches!(summary_body(&app), SummaryBody::Panels));
    app.metrics_loading = true;
    assert!(matches!(summary_body(&app), SummaryBody::Loading));
    app.error_message = Some("denied".to_string());
    assert!(matches!(summary_body(&app), SummaryBody::Error(ref m) if m == "denied"));
    assert_eq!(
        summary_controls_text(TimeRangeMode::Relative),
        "Up/Down: Navigate • Tab: Switch Panels • t: Change Theme (Relative) • Enter: Select • r: Refresh • b/Esc: Back • q: Quit"
    );
    assert!(summary_controls_text(TimeRangeMode::Absolute).contains("(Absolute)"));
}

#[test]
fn empty_instance_list_text() {
    let mut app = App::default();
    assert_eq!(InstanceListContent.no_instances_text(&app), "No Service instances found.");
    app.selected_service = Some(AwsService::Rds);
    assert_eq!(InstanceListContent.no_instances_text(&app), "No RDS instances found.");
}

#[test]
fn style_guide_entries() {
    let t = theme();
    let c = ListColors::from_theme(&t);
    let palette = color_palette_items(&t, c);
    assert_eq!(palette.len(), 11);
    assert_eq!(palette[1].content_parts[0].text, "Warm Cream");
    assert_eq!(palette[1].content_parts[1].color, Color::DarkGray);
    let demos = component_demo_items(&t, c);
    assert_eq!(demos.len(), 8);
    assert_eq!(demos[3].content_parts[0].text, "(DATABASE)");
    assert_eq!(demos[5].content_parts[0].text, " PRODUCTION ");
    assert_eq!(demos[7].content_parts[3].alignment, Alignment::Right);
    let layouts = layout_example_items(c);
    assert_eq!(layouts.len(), 4);
    assert_eq!(layouts[3].layout_style, LayoutStyle::Card);
    assert_eq!(layouts[3].width, Some(30));
    assert_eq!(layouts[2].content_parts[1].text, " Dense");
}

#[test]
fn overlay_plans() {
    match OverlayRenderer::plan(&OverlayType::Loading(None)) {
        OverlayPlan::Loading(o) => assert_eq!(o.message, "Loading..."),
        _ => panic!("expected loading"),
    }
    match OverlayRenderer::plan(&OverlayType::Loading(Some("Fetching".to_string()))) {
        OverlayPlan::Loading(o) => assert_eq!(o.message, "Fetching"),
        _ => panic!("expected loading"),
    }
    match OverlayRenderer::plan(&OverlayType::Error("bad".to_string())) {
        OverlayPlan::Error(o) => assert_eq!((o.title.as_str(), o.message.as_str()), ("Error", "bad")),
        _ => panic!("expected error"),
    }
    match OverlayRenderer::plan(&OverlayType::Confirmation("Sure?".to_string(), vec!["Yes".to_string()])) {
        OverlayPlan::Info(t) => assert_eq!(t, "Sure?"),
        _ => panic!("expected info"),
    }
}

#[test]
fn factory_borders_pass_the_consistency_check() {
    let t = theme();
    for focused in [true, false] {
        assert!(validate_border_consistency(&create_theme_border_style(&t, focused), &t, focused));
    }
}

#[test]
fn paragraphs_stack_inside_the_box() {
    let inner = Rect { x: 0, y: 5, width: 20, height: 11 };
    let areas = paragraph_areas(inner, 4);
    for pair in areas.windows(2) {
        assert_eq!(pair[0].y + pair[0].height, pair[1].y);
    }
    let last = areas[3];
    assert!(last.y + last.height <= inner.y + inner.height);
}

#[test]
fn page_lifecycle_changed_in_place() {
    let mut page = ServiceListPage::new();
    assert!(!page.lifecycle().is_initialized());
    page.lifecycle_mut().mark_initialized();
    assert!(page.lifecycle().is_initialized());
    let mut details = InstanceDetailsPage::new();
    details.lifecycle_mut().mark_updated();
    assert_eq!(details.lifecycle().update_count(), 1);
}
