use cloudwatch_tui::components::page::page_manager::{AnyPage, PageManager};
use cloudwatch_tui::components::page::page_trait::{EventResult, KeyCode, PageEvent, PageResult};
use cloudwatch_tui::components::page::pages::{InstanceListPage, ServiceListPage};
use cloudwatch_tui::components::page::lifecycle::LifecycleState;
use cloudwatch_tui::models::{App, AppState, AwsService, RdsInstance, ServiceInstance};

fn rds(id: &str) -> ServiceInstance {
    ServiceInstance::Rds(RdsInstance {
        identifier: id.to_string(),
        engine: "postgres".to_string(),
        status: "available".to_string(),
        instance_class: "db.t3.micro".to_string(),
        endpoint: None,
    })
}

#[test]
fn new_manager_starts_on_service_list() {
    let m = PageManager::new();
    assert_eq!(m.current_page(), "service_list");
    assert!(m.is_enabled());
    assert_eq!(m.current_page_title(), "Service Selection");
    assert!(!m.can_navigate_back());
    let d = PageManager::default();
    assert_eq!(d.current_page(), "service_list");
}

#[test]
fn navigating_to_unknown_page_is_refused() {
    let mut m = PageManager::new();
    let mut app = App::default();
    app.state = AppState::InstanceList;
    let res = m.navigate_to("settings", &mut app);
    assert_eq!(res, PageResult::Error("Page 'settings' not found".to_string()));
    assert_eq!(m.current_page(), "service_list");
    assert_eq!(app.state, AppState::InstanceList);
}

#[test]
fn navigation_moves_page_and_state() {
    let mut m = PageManager::new();
    let mut app = App::default();
    assert_eq!(m.navigate_to("metrics_summary", &mut app), PageResult::Success);
    assert_eq!(m.current_page(), "metrics_summary");
    assert_eq!(app.state, AppState::MetricsSummary);
    assert_eq!(m.current_page_title(), "Metrics Summary");
    assert!(m.can_navigate_back());
}

#[test]
fn going_back_walks_the_chain() {
    let mut m = PageManager::new();
    let mut app = App::default();
    m.navigate_to("instance_details", &mut app);
    assert_eq!(m.navigate_back(&mut app), PageResult::Success);
    assert_eq!(m.current_page(), "metrics_summary");
    assert_eq!(m.navigate_back(&mut app), PageResult::Success);
    assert_eq!(m.current_page(), "instance_list");
    assert_eq!(m.navigate_back(&mut app), PageResult::Success);
    assert_eq!(m.current_page(), "service_list");
    assert_eq!(app.state, AppState::ServiceList);
    assert_eq!(
        m.navigate_back(&mut app),
        PageResult::Error("Cannot navigate back from this page".to_string())
    );
    assert_eq!(m.current_page(), "service_list");
}

#[test]
fn sync_follows_application_state() {
    let mut m = PageManager::new();
    let mut app = App::default();
    app.state = AppState::InstanceDetails;
    assert_eq!(m.sync_with_app_state(&mut app), PageResult::Success);
    assert_eq!(m.current_page(), "instance_details");
    assert_eq!(app.state, AppState::InstanceDetails);
    // Already in sync: nothing to do.
    assert_eq!(m.sync_with_app_state(&mut app), PageResult::Success);
    assert_eq!(m.current_page(), "instance_details");
}

#[test]
fn disabled_manager_ignores_events_and_updates() {
    let mut m = PageManager::new();
    let mut app = App::default();
    app.available_services = vec![AwsService::Rds, AwsService::Sqs];
    m.set_enabled(false);
    assert!(!m.is_enabled());
    assert_eq!(m.handle_event(PageEvent::Key(KeyCode::Down), &mut app), EventResult::NotHandled);
    assert_eq!(app.service_list_selected, Some(0));
    assert_eq!(m.update(&mut app), PageResult::Success);
}

#[test]
fn events_drive_selection_and_navigation() {
    let mut m = PageManager::new();
    let mut app = App::default();
    app.available_services = vec![AwsService::Rds, AwsService::Sqs];
    assert_eq!(m.handle_event(PageEvent::Key(KeyCode::Down), &mut app), EventResult::Handled);
    assert_eq!(app.service_list_selected, Some(1));
    assert_eq!(m.handle_event(PageEvent::Key(KeyCode::Down), &mut app), EventResult::Handled);
    assert_eq!(app.service_list_selected, Some(0));
    assert_eq!(m.handle_event(PageEvent::Key(KeyCode::Up), &mut app), EventResult::Handled);
    assert_eq!(app.service_list_selected, Some(1));
    let res = m.handle_event(PageEvent::Key(KeyCode::Enter), &mut app);
    assert_eq!(res, EventResult::Action(PageResult::Navigate("instance_list".to_string())));
    assert_eq!(app.selected_service, Some(AwsService::Sqs));
    assert_eq!(m.current_page(), "instance_list");
    assert_eq!(app.state, AppState::InstanceList);

    app.instances = vec![rds("a"), rds("b"), rds("c")];
    assert_eq!(m.handle_event(PageEvent::Key(KeyCode::Up), &mut app), EventResult::Handled);
    assert_eq!(app.list_selected, Some(2));
    let res = m.handle_event(PageEvent::Key(KeyCode::Enter), &mut app);
    assert_eq!(res, EventResult::Action(PageResult::Navigate("metrics_summary".to_string())));
    assert_eq!(app.selected_instance, Some(2));
    assert_eq!(m.current_page(), "metrics_summary");
    let res = m.handle_event(PageEvent::Key(KeyCode::Esc), &mut app);
    assert_eq!(res, EventResult::Action(PageResult::Navigate("instance_list".to_string())));
    assert_eq!(m.current_page(), "instance_list");
    assert_eq!(m.handle_event(PageEvent::Other, &mut app), EventResult::NotHandled);
}

#[test]
fn registering_replaces_or_adds() {
    let mut m = PageManager::new();
    let mut app = App::default();
    m.register_page("extra", AnyPage::InstanceList(InstanceListPage::new()));
    assert_eq!(m.navigate_to("extra", &mut app), PageResult::Success);
    assert_eq!(m.current_page(), "extra");
    assert_eq!(m.current_page_title(), "Instance List");
    // An unknown page name keeps the application state.
    assert_eq!(app.state, AppState::ServiceList);
    m.register_page("extra", AnyPage::ServiceList(ServiceListPage::new()));
    assert_eq!(m.current_page_title(), "Service Selection");
}

#[test]
fn update_counts_on_current_page() {
    let mut m = PageManager::new();
    let mut app = App::default();
    assert_eq!(m.update(&mut app), PageResult::Success);
    m.register_page("lonely", AnyPage::ServiceList(ServiceListPage::new()));
    let mut p = ServiceListPage::new();
    assert_eq!(p.lifecycle().state(), &LifecycleState::Initializing);
    p.initialize(&mut app);
    assert!(p.lifecycle().is_active());
    p.update(&mut app);
    assert_eq!(p.lifecycle().update_count(), 1);
    p.cleanup(&mut app);
    assert_eq!(p.lifecycle().state(), &LifecycleState::Destroying);
}
