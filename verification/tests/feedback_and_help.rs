use cloudwatch_tui::components::error_feedback::{ErrorFeedback, ErrorFeedbackExt, ErrorType};
use cloudwatch_tui::components::help_system::{HelpContext, HelpSystem, HelpSystemExt};
use cloudwatch_tui::layout::Rect;
use cloudwatch_tui::models::{App, AppState, FocusedPanel};
use cloudwatch_tui::style::ThemeColor;

#[test]
fn setting_an_error_stores_it() {
    let mut f = ErrorFeedback::new();
    assert!(!f.has_error());
    f.set_error("Request TIMEOUT: Permission denied".to_string(), ErrorType::System);
    assert!(f.has_error());
    assert_eq!(f.get_error(), Some(&"Request TIMEOUT: Permission denied".to_string()));
    assert_eq!(f.error_type, ErrorType::System);
    assert_eq!(f.auto_dismiss_after, None);
    // Message keywords (in any case) add suggestions after the type's own.
    assert_eq!(
        f.recovery_suggestions,
        vec![
            "Press 'r' to retry".to_string(),
            "Try increasing timeout settings".to_string(),
            "Check file/directory permissions".to_string(),
        ]
    );
    f.set_error("Table not found".to_string(), ErrorType::UserInput);
    assert_eq!(
        f.recovery_suggestions,
        vec![
            "Check your input format".to_string(),
            "Press '?' for help".to_string(),
            "Verify the resource exists".to_string(),
        ]
    );
    assert_eq!(f.auto_dismiss_after, Some(10));
}

#[test]
fn clearing_removes_the_error() {
    let mut f = ErrorFeedback::new();
    f.set_network_error("down".to_string());
    assert_eq!(f.auto_dismiss_after, Some(15));
    assert_eq!(f.recovery_suggestions.len(), 4);
    f.clear();
    assert!(!f.has_error());
    assert_eq!(f.get_error(), None);
    assert!(f.recovery_suggestions.is_empty());
    assert!(!f.should_auto_dismiss());
}

#[test]
fn each_error_kind() {
    let mut f = ErrorFeedback::default();
    f.set_auth_error("denied".to_string());
    assert_eq!(f.error_type, ErrorType::Authentication);
    assert_eq!(f.recovery_suggestions[0], "Check AWS credentials (aws configure)");
    f.set_config_error("bad".to_string());
    assert_eq!(f.error_type, ErrorType::Configuration);
    assert_eq!(f.auto_dismiss_after, None);
    f.set_user_input_error("what".to_string());
    assert_eq!(f.error_type, ErrorType::UserInput);
    assert_eq!(f.recovery_suggestions.len(), 3);
    f.set_info("fyi".to_string());
    assert_eq!(f.error_type, ErrorType::Info);
    assert!(f.recovery_suggestions.is_empty());
    assert_eq!(f.auto_dismiss_after, Some(5));
    f.set_warning("careful".to_string());
    assert_eq!(f.error_type, ErrorType::Warning);
    assert_eq!(f.auto_dismiss_after, Some(8));
}

#[test]
fn auto_dismiss_after_delay() {
    let mut f = ErrorFeedback::new();
    f.set_info("hi".to_string());
    assert!(!f.should_auto_dismiss_after(4_999));
    assert!(f.should_auto_dismiss_after(5_000));
    f.set_config_error("stays".to_string());
    assert!(!f.should_auto_dismiss_after(u128::MAX));
}

#[test]
fn titles_and_colours_by_type() {
    let mut f = ErrorFeedback::new();
    assert_eq!(f.get_error_title(), "System Error");
    f.set_network_error("x".to_string());
    assert_eq!(f.get_error_title(), "Network Error");
    assert_eq!(f.get_error_colors(), (ThemeColor::Background, ThemeColor::Warning, ThemeColor::Primary));
    f.set_user_input_error("x".to_string());
    assert_eq!(f.get_error_title(), "Input Error");
    assert_eq!(f.get_error_colors().1, ThemeColor::Info);
}

#[test]
fn error_area_is_centred_band() {
    let mut f = ErrorFeedback::new();
    f.set_user_input_error("x".to_string());
    let area = f.get_error_area(Rect { x: 0, y: 0, width: 100, height: 40 });
    assert_eq!(area, Rect { x: 20, y: 2, width: 60, height: 11 });
}

#[test]
fn app_error_feedback_extension() {
    let mut app = App::default();
    assert!(!app.has_error_feedback());
    app.set_network_error("offline".to_string());
    assert!(app.has_error_feedback());
    assert_eq!(app.get_error_feedback().error_type, ErrorType::Network);
    app.get_error_feedback_mut().dismissible = false;
    assert!(!app.error_feedback.dismissible);
    app.clear_error_feedback();
    assert!(!app.has_error_feedback());
}

#[test]
fn help_toggles_and_follows_context() {
    let mut h = HelpSystem::new();
    assert!(!h.visible);
    h.toggle();
    assert!(h.visible);
    h.toggle();
    assert!(!h.visible);
    h.show();
    assert!(h.visible);
    h.hide_overlay();
    assert!(!h.visible);
    h.update_context(&AppState::MetricsSummary);
    assert_eq!(h.current_context, HelpContext::MetricsSummary);
    assert_eq!(h.get_context_name(), "Metrics Summary");
}

#[test]
fn app_help_extension() {
    let mut app = App::default();
    app.state = AppState::InstanceList;
    app.toggle_help();
    assert!(app.get_help_system().visible);
    assert_eq!(app.help_system.current_context, HelpContext::InstanceList);
    app.get_help_system_mut().visible = false;
    app.state = AppState::ServiceList;
    app.update_help_context();
    assert_eq!(app.help_system.current_context, HelpContext::ServiceList);
    assert!(!app.help_system.visible);
}

#[test]
fn help_entries_pad_keys() {
    let h = HelpSystem::new();
    let mut app = App::default();
    app.focused_panel = FocusedPanel::Timezone;
    let shortcuts = h.get_keyboard_shortcuts(&app);
    assert_eq!(shortcuts[0], ("q".to_string(), "Quit application".to_string(), "Global".to_string()));
    let entries = h.help_entries(&app);
    assert_eq!(entries.len(), shortcuts.len());
    assert_eq!(entries[0], ("q           ".to_string(), "Quit application".to_string(), "(Global)".to_string()));
    assert_eq!(h.header_text(), "Context: Global | Press '?' or 'h' to close");
}

#[test]
fn zero_dismiss_delay_is_due_at_once() {
    let mut f = ErrorFeedback::new();
    assert!(!f.should_auto_dismiss());
    f.set_info("Saved".to_string());
    f.auto_dismiss_after = Some(0);
    assert!(f.should_auto_dismiss());
    f.auto_dismiss_after = None;
    assert!(!f.should_auto_dismiss());
}
