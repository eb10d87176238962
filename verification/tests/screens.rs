use cloudwatch_tui::components::instance::{
    instance_list_titles, instance_panel, queue_text_with_count, rds_detail_lines, rds_instance_item_builder,
    sqs_queue_item_builder, status_color_of, InstancePanel,
};
use cloudwatch_tui::components::list_styling::{LayoutStyle, ListColors};
use cloudwatch_tui::components::metric_list_utils::{grid_page, metric_list_frame, paged_title, GridPage};
use cloudwatch_tui::models::{App, AwsService, RdsInstance, ServiceInstance, SqsQueue};
use cloudwatch_tui::style::Color;

fn palette(accent: Color) -> ListColors {
    ListColors {
        primary: Color::White,
        secondary: Color::Gray,
        accent,
        success: Color::Green,
        warning: Color::Yellow,
        error: Color::Red,
        info: Color::Blue,
        muted: Color::DarkGray,
        background: Color::Black,
        selected: Color::Black,
        focused: Color::Yellow,
        separator: Color::DarkGray,
        progress_bg: Color::DarkGray,
        progress_fg: Color::Green,
        highlight: Color::Yellow,
        dim: Color::Gray,
        border: Color::White,
    }
}

fn db(status: &str) -> RdsInstance {
    RdsInstance {
        identifier: "orders".to_string(),
        engine: "postgres".to_string(),
        status: status.to_string(),
        instance_class: "db.t3.micro".to_string(),
        endpoint: None,
    }
}

#[test]
fn grid_pages() {
    assert_eq!(
        grid_page(10, 5, 4),
        GridPage { selected: 5, page: 1, start: 4, end: 8, page_count: 3, relative_selected: 1 }
    );
    assert_eq!(
        grid_page(10, 42, 4),
        GridPage { selected: 9, page: 2, start: 8, end: 10, page_count: 3, relative_selected: 1 }
    );
    assert_eq!(grid_page(0, 3, 4), GridPage { selected: 0, page: 0, start: 0, end: 0, page_count: 0, relative_selected: 0 });
    for total in 1..30usize {
        for sel in 0..35usize {
            let p = grid_page(total, sel, 4);
            assert!(p.start <= p.selected && p.selected < p.end && p.end <= total);
            assert!(p.end - p.start <= 4 && p.start % 4 == 0 && p.page < p.page_count);
        }
    }
}

#[test]
fn metric_list_titles() {
    assert_eq!(metric_list_frame(true), ("Metrics [FOCUSED]", Color::Green));
    assert_eq!(metric_list_frame(false), ("Metrics", Color::White));
    let p = grid_page(10, 5, 4);
    assert_eq!(paged_title("Metrics", p, 10), "Metrics (Page 2/3 - 6/10)");
}

#[test]
fn instance_entries() {
    let own = palette(Color::Cyan);
    let theme = palette(Color::Magenta);
    let b = rds_instance_item_builder(&db("available"), false, &own, &theme);
    assert_eq!(b.layout_style, LayoutStyle::Enhanced);
    let t: Vec<&str> = b.content_parts.iter().map(|p| p.text.as_str()).collect();
    assert_eq!(
        t,
        vec!["[ONLINE]", "(DATABASE)", "orders", " | ", "Engine: postgres", " | ", "Status: available", "Class: db.t3.micro"]
    );
    assert_eq!(b.content_parts[7].color, Color::Magenta);
    let b = rds_instance_item_builder(&db("Available"), true, &own, &theme);
    assert_eq!(b.content_parts[0].text, "[UNKNOWN]");
    assert_eq!(b.content_parts[7].color, Color::Black);
    let q = SqsQueue { name: "jobs".to_string(), url: "u".to_string(), queue_type: "FIFO".to_string() };
    let b = sqs_queue_item_builder(&q, false, &own, &theme);
    let t: Vec<&str> = b.content_parts.iter().map(|p| p.text.as_str()).collect();
    assert_eq!(t, vec!["[ONLINE]", "(QUEUE)", "jobs", " | ", "Type: FIFO", " | ", "Status: Available", "SQS Queue"]);
}

#[test]
fn instance_details_text() {
    let mut i = db("stopped");
    let lines = rds_detail_lines(&i);
    assert_eq!(lines.0, "ID: orders");
    assert_eq!(lines.3, "Endpoint: N/A");
    i.endpoint = Some("orders.example:5432".to_string());
    assert_eq!(rds_detail_lines(&i).3, "Endpoint: orders.example:5432");
    assert_eq!(queue_text_with_count("jobs", 12), "jobs (12 messages)");
    assert_eq!(status_color_of("available"), Color::Green);
    assert_eq!(status_color_of("stopped"), Color::Red);
    assert_eq!(status_color_of("Stopped"), Color::Yellow);
}

#[test]
fn instance_list_panel_and_titles() {
    let mut app = App::default();
    assert_eq!(instance_panel(&app), InstancePanel::Empty);
    assert_eq!(instance_list_titles(&app), ("AWS CloudWatch TUI - Instances".to_string(), "Instances".to_string()));
    app.selected_service = Some(AwsService::Sqs);
    assert_eq!(instance_list_titles(&app), ("AWS CloudWatch TUI - SQS Instances".to_string(), "SQS Instances".to_string()));
    app.instances = vec![ServiceInstance::Rds(db("available"))];
    assert_eq!(instance_panel(&app), InstancePanel::Instances);
    app.loading = true;
    assert_eq!(instance_panel(&app), InstancePanel::Loading);
    app.error_message = Some("boom".to_string());
    assert_eq!(instance_panel(&app), InstancePanel::Error("boom".to_string()));
}

#[test]
fn wrap_round_trip_on_the_service_list() {
    use_wrap();
}

fn use_wrap() {
    use_list(1);
    use_list(4);
}

fn use_list(n: usize) {
    let mut m = cloudwatch_tui::components::page::page_manager::PageManager::new();
    let mut app = App::default();
    app.available_services = (0..n).map(|i| if i % 2 == 0 { AwsService::Rds } else { AwsService::Sqs }).collect();
    for start in 0..n {
        app.service_list_selected = Some(start);
        m.handle_event(cloudwatch_tui::components::page::page_trait::PageEvent::Key(cloudwatch_tui::components::page::page_trait::KeyCode::Up), &mut app);
        assert!(app.service_list_selected.unwrap() < n);
        m.handle_event(cloudwatch_tui::components::page::page_trait::PageEvent::Key(cloudwatch_tui::components::page::page_trait::KeyCode::Down), &mut app);
        assert_eq!(app.service_list_selected, Some(start));
    }
}
