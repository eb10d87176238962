//! The four screens of the dashboard: lifecycle and keyboard handling.
use vstd::prelude::*;
use crate::models::App;
use super::lifecycle::{LifecycleState, PageLifecycle};
use super::page_trait::{EventResult, KeyCode, PageEvent, PageResult};

verus! {

broadcast use vstd::string::group_string_axioms;

/// `res` asks to navigate to the page named `target`.
pub open spec fn navigates_to(res: EventResult, target: Seq<char>) -> bool {
    &&& res is Action
    &&& res->Action_0 is Navigate
    &&& res->Action_0->Navigate_0@ == target
}

/// The selection after moving up from `selected` in a list of `len` items, wrapping
/// from the top to the bottom.
pub open spec fn wrap_up(selected: nat, len: nat) -> nat {
    if selected > 0 {
        (selected - 1) as nat
    } else {
        (len - 1) as nat
    }
}

/// The selection after moving down from `selected` in a list of `len` items, wrapping
/// from the bottom to the top.
pub open spec fn wrap_down(selected: nat, len: nat) -> nat {
    if selected + 1 < len {
        selected + 1
    } else {
        0
    }
}

/// In a list of `len` items, moving up and then down (or down and then up) from a
/// selected item comes back to it, and both moves stay inside the list.
pub proof fn lemma_wrap_round_trip(selected: nat, len: nat)
    requires
        selected < len,
    ensures
        wrap_up(selected, len) < len,
        wrap_down(selected, len) < len,
        wrap_down(wrap_up(selected, len), len) == selected,
        wrap_up(wrap_down(selected, len), len) == selected,
{
}

/// The selected index, counting no selection as the first item.
pub open spec fn selected_or_first(selected: Option<usize>) -> nat {
    match selected {
        Some(s) => s as nat,
        None => 0,
    }
}

/// The application state after an event on the service list.
pub open spec fn service_list_after(old: App, event: PageEvent) -> App {
    let len = old.available_services@.len();
    let s = selected_or_first(old.service_list_selected);
    match event {
        PageEvent::Key(KeyCode::Up) => if s > 0 || len > 0 {
            App { service_list_selected: Some(wrap_up(s, len) as usize), ..old }
        } else {
            old
        },
        PageEvent::Key(KeyCode::Down) => App {
            service_list_selected: Some(wrap_down(s, len) as usize),
            ..old
        },
        PageEvent::Key(KeyCode::Enter) => match old.service_list_selected {
            Some(i) => if i < len {
                App { selected_service: Some(old.available_services@[i as int]), ..old }
            } else {
                old
            },
            None => old,
        },
        _ => old,
    }
}

/// What the service list answers to an event.
pub open spec fn service_list_response(old: App, event: PageEvent, res: EventResult) -> bool {
    match event {
        PageEvent::Key(KeyCode::Up) | PageEvent::Key(KeyCode::Down) => res == EventResult::Handled,
        PageEvent::Key(KeyCode::Enter) => match old.service_list_selected {
            Some(i) => if i < old.available_services@.len() {
                navigates_to(res, "instance_list"@)
            } else {
                res == EventResult::NotHandled
            },
            None => res == EventResult::NotHandled,
        },
        _ => res == EventResult::NotHandled,
    }
}

/// The application state after an event on the instance list.
pub open spec fn instance_list_after(old: App, event: PageEvent) -> App {
    let len = old.instances@.len();
    let s = selected_or_first(old.list_selected);
    match event {
        PageEvent::Key(KeyCode::Up) => if len > 0 {
            App { list_selected: Some(wrap_up(s, len) as usize), ..old }
        } else {
            old
        },
        PageEvent::Key(KeyCode::Down) => if len > 0 {
            App { list_selected: Some(wrap_down(s, len) as usize), ..old }
        } else {
            old
        },
        PageEvent::Key(KeyCode::Enter) => match old.list_selected {
            Some(i) => if i < len {
                App { selected_instance: Some(i), ..old }
            } else {
                old
            },
            None => old,
        },
        _ => old,
    }
}

/// What the instance list answers to an event.
pub open spec fn instance_list_response(old: App, event: PageEvent, res: EventResult) -> bool {
    match event {
        PageEvent::Key(KeyCode::Up) | PageEvent::Key(KeyCode::Down) => res == EventResult::Handled,
        PageEvent::Key(KeyCode::Enter) => match old.list_selected {
            Some(i) => if i < old.instances@.len() {
                navigates_to(res, "metrics_summary"@)
            } else {
                res == EventResult::NotHandled
            },
            None => res == EventResult::NotHandled,
        },
        PageEvent::Key(KeyCode::Esc) => navigates_to(res, "service_list"@),
        _ => res == EventResult::NotHandled,
    }
}

/// What the metrics summary answers to an event.
pub open spec fn metrics_summary_response(event: PageEvent, res: EventResult) -> bool {
    match event {
        PageEvent::Key(KeyCode::Esc) => navigates_to(res, "instance_list"@),
        PageEvent::Key(KeyCode::Enter) => navigates_to(res, "instance_details"@),
        _ => res == EventResult::NotHandled,
    }
}

/// What the instance details answer to an event.
pub open spec fn instance_details_response(event: PageEvent, res: EventResult) -> bool {
    match event {
        PageEvent::Key(KeyCode::Esc) => navigates_to(res, "metrics_summary"@),
        _ => res == EventResult::NotHandled,
    }
}

/// The lifecycle after initialization: active, the rest kept.
pub open spec fn initialized_from(old: PageLifecycle, new: PageLifecycle) -> bool {
    &&& new.state_spec() == LifecycleState::Active
    &&& new.initialized_spec()
    &&& new.update_count_spec() == old.update_count_spec()
    &&& new.has_updated_spec() == old.has_updated_spec()
}

/// The lifecycle after an update: one more update counted.
pub open spec fn updated_from(old: PageLifecycle, new: PageLifecycle) -> bool {
    &&& new.update_count_spec() == old.update_count_spec() + 1
    &&& new.has_updated_spec()
    &&& new.state_spec() == (if old.state_spec() == LifecycleState::Updating {
        LifecycleState::Active
    } else {
        old.state_spec()
    })
    &&& new.initialized_spec() == old.initialized_spec()
}

/// The lifecycle after cleanup: being destroyed, the rest kept.
pub open spec fn destroyed_from(old: PageLifecycle, new: PageLifecycle) -> bool {
    &&& new.state_spec() == LifecycleState::Destroying
    &&& new.initialized_spec() == old.initialized_spec()
    &&& new.update_count_spec() == old.update_count_spec()
    &&& new.has_updated_spec() == old.has_updated_spec()
}

/// Service list page content.
#[derive(Debug)]
pub struct ServiceListContent;

impl ServiceListContent {
    pub fn content_title(&self) -> (res: String)
        ensures
            res@ == "Available Services"@,
    {
        "Available Services".to_owned()
    }
}

/// Instance list page content.
#[derive(Debug)]
pub struct InstanceListContent;

impl InstanceListContent {
    pub fn content_title(&self) -> (res: String)
        ensures
            res@ == "Instances"@,
    {
        "Instances".to_owned()
    }

    /// The message of an empty instance list: "No RDS instances found." for the
    /// selected service, "No Service instances found." without one.
    pub fn no_instances_text(&self, app: &App) -> (res: String)
        ensures
            res@ == "No "@ + (match app.selected_service {
                Some(s) => s.spec_short_name(),
                None => "Service"@,
            }) + " instances found."@,
    {
        let name = match app.selected_service {
            Some(s) => s.short_name(),
            None => "Service",
        };
        let mut res = "No ".to_owned();
        res.append(name);
        res.append(" instances found.");
        res
    }
}

/// Metrics summary page content.
#[derive(Debug)]
pub struct MetricsSummaryContent;

impl MetricsSummaryContent {
    pub fn content_title(&self) -> (res: String)
        ensures
            res@ == "Metrics Summary"@,
    {
        "Metrics Summary".to_owned()
    }
}

/// Instance details page content.
#[derive(Debug)]
pub struct InstanceDetailsContent;

impl InstanceDetailsContent {
    pub fn content_title(&self) -> (res: String)
        ensures
            res@ == "Instance Details"@,
    {
        "Instance Details".to_owned()
    }
}

/// Service list page implementation.
#[derive(Debug)]
pub struct ServiceListPage {
    lifecycle: PageLifecycle,
    content: ServiceListContent,
}

impl ServiceListPage {
    /// The lifecycle of the page.
    pub closed spec fn lifecycle_spec(&self) -> PageLifecycle {
        self.lifecycle
    }

    /// Create a new page.
    pub fn new() -> (res: Self)
        ensures
            res.lifecycle_spec().state_spec() == LifecycleState::Initializing,
            !res.lifecycle_spec().initialized_spec(),
            res.lifecycle_spec().update_count_spec() == 0,
            !res.lifecycle_spec().has_updated_spec(),
    {
        ServiceListPage { lifecycle: PageLifecycle::new(), content: ServiceListContent }
    }

    /// Initialize the page: it becomes active.
    pub fn initialize(&mut self, _app: &mut App) -> (res: PageResult)
        ensures
            res == PageResult::Success,
            initialized_from(old(self).lifecycle_spec(), final(self).lifecycle_spec()),
            *final(_app) == *old(_app),
    {
        self.lifecycle.mark_initialized();
        PageResult::Success
    }

    /// Update the page: one more update is counted.
    pub fn update(&mut self, _app: &mut App) -> (res: PageResult)
        requires
            old(self).lifecycle_spec().update_count_spec() < u32::MAX,
        ensures
            res == PageResult::Success,
            updated_from(old(self).lifecycle_spec(), final(self).lifecycle_spec()),
            *final(_app) == *old(_app),
    {
        self.lifecycle.mark_updated();
        PageResult::Success
    }

    /// Cleanup when the page is being left.
    pub fn cleanup(&mut self, _app: &mut App) -> (res: PageResult)
        ensures
            res == PageResult::Success,
            destroyed_from(old(self).lifecycle_spec(), final(self).lifecycle_spec()),
            *final(_app) == *old(_app),
    {
        self.lifecycle.mark_destroying();
        PageResult::Success
    }

    /// Get the page lifecycle state.
    pub fn lifecycle(&self) -> (res: &PageLifecycle)
        ensures
            *res == self.lifecycle_spec(),
    {
        &self.lifecycle
    }

    /// The page lifecycle, to be changed in place.
    pub fn lifecycle_mut(&mut self) -> (res: &mut PageLifecycle)
        ensures
            *res == old(self).lifecycle_spec(),
            final(self).lifecycle_spec() == *final(res),
    {
        &mut self.lifecycle
    }

    /// The page title for display.
    pub fn title(&self) -> (res: String)
        ensures
            res@ == "Service Selection"@,
    {
        "Service Selection".to_owned()
    }

    /// Whether the page can handle back navigation.
    pub fn can_navigate_back(&self) -> (res: bool)
        ensures
            res == false,
    {
        false
    }

    /// Whether the page is currently loading.
    pub fn is_loading(&self) -> (res: bool)
        ensures
            !res,
    {
        false
    }

    /// The current error message, if any.
    pub fn error_message(&self) -> (res: Option<&String>)
        ensures
            res is None,
    {
        None
    }

    /// Handle an input event: Up/Down move the service selection with wrap-around,
    /// Enter selects the highlighted service and asks for the instance list.
    pub fn handle_event(&mut self, event: PageEvent, app: &mut App) -> (res: EventResult)
        ensures
            *final(self) == *old(self),
            *final(app) == service_list_after(*old(app), event),
            service_list_response(*old(app), event, res),
    {
        match event {
            PageEvent::Key(KeyCode::Up) => {
                let selected = match app.service_list_selected {
                    Some(s) => s,
                    None => 0,
                };
                if selected > 0 {
                    app.service_list_selected = Some(selected - 1);
                } else if app.available_services.len() > 0 {
                    app.service_list_selected = Some(app.available_services.len() - 1);
                }
                EventResult::Handled
            },
            PageEvent::Key(KeyCode::Down) => {
                let selected = match app.service_list_selected {
                    Some(s) => s,
                    None => 0,
                };
                let len = app.available_services.len();
                let last = if len > 0 { len - 1 } else { 0 };
                if selected < last {
                    app.service_list_selected = Some(selected + 1);
                } else {
                    app.service_list_selected = Some(0);
                }
                EventResult::Handled
            },
            PageEvent::Key(KeyCode::Enter) => {
                match app.service_list_selected {
                    Some(i) => {
                        if i < app.available_services.len() {
                            app.selected_service = Some(app.available_services[i]);
                            EventResult::Action(PageResult::Navigate("instance_list".to_owned()))
                        } else {
                            EventResult::NotHandled
                        }
                    },
                    None => EventResult::NotHandled,
                }
            },
            _ => EventResult::NotHandled,
        }
    }
}

impl Default for ServiceListPage {
    fn default() -> (res: Self)
        ensures
            res.lifecycle_spec().state_spec() == LifecycleState::Initializing,
            !res.lifecycle_spec().initialized_spec(),
            res.lifecycle_spec().update_count_spec() == 0,
            !res.lifecycle_spec().has_updated_spec(),
    {
        Self::new()
    }
}

/// Instance list page implementation.
#[derive(Debug)]
pub struct InstanceListPage {
    lifecycle: PageLifecycle,
    content: InstanceListContent,
}

impl InstanceListPage {
    /// The lifecycle of the page.
    pub closed spec fn lifecycle_spec(&self) -> PageLifecycle {
        self.lifecycle
    }

    /// Create a new page.
    pub fn new() -> (res: Self)
        ensures
            res.lifecycle_spec().state_spec() == LifecycleState::Initializing,
            !res.lifecycle_spec().initialized_spec(),
            res.lifecycle_spec().update_count_spec() == 0,
            !res.lifecycle_spec().has_updated_spec(),
    {
        InstanceListPage { lifecycle: PageLifecycle::new(), content: InstanceListContent }
    }

    /// Initialize the page: it becomes active.
    pub fn initialize(&mut self, _app: &mut App) -> (res: PageResult)
        ensures
            res == PageResult::Success,
            initialized_from(old(self).lifecycle_spec(), final(self).lifecycle_spec()),
            *final(_app) == *old(_app),
    {
        self.lifecycle.mark_initialized();
        PageResult::Success
    }

    /// Update the page: one more update is counted.
    pub fn update(&mut self, _app: &mut App) -> (res: PageResult)
        requires
            old(self).lifecycle_spec().update_count_spec() < u32::MAX,
        ensures
            res == PageResult::Success,
            updated_from(old(self).lifecycle_spec(), final(self).lifecycle_spec()),
            *final(_app) == *old(_app),
    {
        self.lifecycle.mark_updated();
        PageResult::Success
    }

    /// Cleanup when the page is being left.
    pub fn cleanup(&mut self, _app: &mut App) -> (res: PageResult)
        ensures
            res == PageResult::Success,
            destroyed_from(old(self).lifecycle_spec(), final(self).lifecycle_spec()),
            *final(_app) == *old(_app),
    {
        self.lifecycle.mark_destroying();
        PageResult::Success
    }

    /// Get the page lifecycle state.
    pub fn lifecycle(&self) -> (res: &PageLifecycle)
        ensures
            *res == self.lifecycle_spec(),
    {
        &self.lifecycle
    }

    /// The page lifecycle, to be changed in place.
    pub fn lifecycle_mut(&mut self) -> (res: &mut PageLifecycle)
        ensures
            *res == old(self).lifecycle_spec(),
            final(self).lifecycle_spec() == *final(res),
    {
        &mut self.lifecycle
    }

    /// The page title for display.
    pub fn title(&self) -> (res: String)
        ensures
            res@ == "Instance List"@,
    {
        "Instance List".to_owned()
    }

    /// Whether the page can handle back navigation.
    pub fn can_navigate_back(&self) -> (res: bool)
        ensures
            res == true,
    {
        true
    }

    /// Whether the page is currently loading.
    pub fn is_loading(&self) -> (res: bool)
        ensures
            !res,
    {
        false
    }

    /// The current error message, if any.
    pub fn error_message(&self) -> (res: Option<&String>)
        ensures
            res is None,
    {
        None
    }

    /// Handle an input event: Up/Down move the instance selection with wrap-around,
    /// Enter selects the highlighted instance and asks for its metrics, Esc goes back.
    pub fn handle_event(&mut self, event: PageEvent, app: &mut App) -> (res: EventResult)
        ensures
            *final(self) == *old(self),
            *final(app) == instance_list_after(*old(app), event),
            instance_list_response(*old(app), event, res),
    {
        match event {
            PageEvent::Key(KeyCode::Up) => {
                let len = app.get_current_instances().len();
                if len > 0 {
                    let selected = match app.list_selected {
                        Some(s) => s,
                        None => 0,
                    };
                    if selected > 0 {
                        app.list_selected = Some(selected - 1);
                    } else {
                        app.list_selected = Some(len - 1);
                    }
                }
                EventResult::Handled
            },
            PageEvent::Key(KeyCode::Down) => {
                let len = app.get_current_instances().len();
                if len > 0 {
                    let selected = match app.list_selected {
                        Some(s) => s,
                        None => 0,
                    };
                    if selected < len - 1 {
                        app.list_selected = Some(selected + 1);
                    } else {
                        app.list_selected = Some(0);
                    }
                }
                EventResult::Handled
            },
            PageEvent::Key(KeyCode::Enter) => {
                match app.list_selected {
                    Some(i) => {
                        if i < app.get_current_instances().len() {
                            app.selected_instance = Some(i);
                            EventResult::Action(PageResult::Navigate("metrics_summary".to_owned()))
                        } else {
                            EventResult::NotHandled
                        }
                    },
                    None => EventResult::NotHandled,
                }
            },
            PageEvent::Key(KeyCode::Esc) => {
                EventResult::Action(PageResult::Navigate("service_list".to_owned()))
            },
            _ => EventResult::NotHandled,
        }
    }
}

impl Default for InstanceListPage {
    fn default() -> (res: Self)
        ensures
            res.lifecycle_spec().state_spec() == LifecycleState::Initializing,
            !res.lifecycle_spec().initialized_spec(),
            res.lifecycle_spec().update_count_spec() == 0,
            !res.lifecycle_spec().has_updated_spec(),
    {
        Self::new()
    }
}

/// Metrics summary page implementation.
#[derive(Debug)]
pub struct MetricsSummaryPage {
    lifecycle: PageLifecycle,
    content: MetricsSummaryContent,
}

impl MetricsSummaryPage {
    /// The lifecycle of the page.
    pub closed spec fn lifecycle_spec(&self) -> PageLifecycle {
        self.lifecycle
    }

    /// Create a new page.
    pub fn new() -> (res: Self)
        ensures
            res.lifecycle_spec().state_spec() == LifecycleState::Initializing,
            !res.lifecycle_spec().initialized_spec(),
            res.lifecycle_spec().update_count_spec() == 0,
            !res.lifecycle_spec().has_updated_spec(),
    {
        MetricsSummaryPage { lifecycle: PageLifecycle::new(), content: MetricsSummaryContent }
    }

    /// Initialize the page: it becomes active.
    pub fn initialize(&mut self, _app: &mut App) -> (res: PageResult)
        ensures
            res == PageResult::Success,
            initialized_from(old(self).lifecycle_spec(), final(self).lifecycle_spec()),
            *final(_app) == *old(_app),
    {
        self.lifecycle.mark_initialized();
        PageResult::Success
    }

    /// Update the page: one more update is counted.
    pub fn update(&mut self, _app: &mut App) -> (res: PageResult)
        requires
            old(self).lifecycle_spec().update_count_spec() < u32::MAX,
        ensures
            res == PageResult::Success,
            updated_from(old(self).lifecycle_spec(), final(self).lifecycle_spec()),
            *final(_app) == *old(_app),
    {
        self.lifecycle.mark_updated();
        PageResult::Success
    }

    /// Cleanup when the page is being left.
    pub fn cleanup(&mut self, _app: &mut App) -> (res: PageResult)
        ensures
            res == PageResult::Success,
            destroyed_from(old(self).lifecycle_spec(), final(self).lifecycle_spec()),
            *final(_app) == *old(_app),
    {
        self.lifecycle.mark_destroying();
        PageResult::Success
    }

    /// Get the page lifecycle state.
    pub fn lifecycle(&self) -> (res: &PageLifecycle)
        ensures
            *res == self.lifecycle_spec(),
    {
        &self.lifecycle
    }

    /// The page lifecycle, to be changed in place.
    pub fn lifecycle_mut(&mut self) -> (res: &mut PageLifecycle)
        ensures
            *res == old(self).lifecycle_spec(),
            final(self).lifecycle_spec() == *final(res),
    {
        &mut self.lifecycle
    }

    /// The page title for display.
    pub fn title(&self) -> (res: String)
        ensures
            res@ == "Metrics Summary"@,
    {
        "Metrics Summary".to_owned()
    }

    /// Whether the page can handle back navigation.
    pub fn can_navigate_back(&self) -> (res: bool)
        ensures
            res == true,
    {
        true
    }

    /// Whether the page is currently loading.
    pub fn is_loading(&self) -> (res: bool)
        ensures
            !res,
    {
        false
    }

    /// The current error message, if any.
    pub fn error_message(&self) -> (res: Option<&String>)
        ensures
            res is None,
    {
        None
    }

    /// Handle an input event: Esc goes back to the instance list, Enter opens the details.
    pub fn handle_event(&mut self, event: PageEvent, _app: &mut App) -> (res: EventResult)
        ensures
            *final(self) == *old(self),
            *final(_app) == *old(_app),
            metrics_summary_response(event, res),
    {
        match event {
            PageEvent::Key(KeyCode::Esc) => EventResult::Action(
                PageResult::Navigate("instance_list".to_owned()),
            ),
            PageEvent::Key(KeyCode::Enter) => EventResult::Action(
                PageResult::Navigate("instance_details".to_owned()),
            ),
            _ => EventResult::NotHandled,
        }
    }
}

impl Default for MetricsSummaryPage {
    fn default() -> (res: Self)
        ensures
            res.lifecycle_spec().state_spec() == LifecycleState::Initializing,
            !res.lifecycle_spec().initialized_spec(),
            res.lifecycle_spec().update_count_spec() == 0,
            !res.lifecycle_spec().has_updated_spec(),
    {
        Self::new()
    }
}

/// Instance details page implementation.
#[derive(Debug)]
pub struct InstanceDetailsPage {
    lifecycle: PageLifecycle,
    content: InstanceDetailsContent,
}

impl InstanceDetailsPage {
    /// The lifecycle of the page.
    pub closed spec fn lifecycle_spec(&self) -> PageLifecycle {
        self.lifecycle
    }

    /// Create a new page.
    pub fn new() -> (res: Self)
        ensures
            res.lifecycle_spec().state_spec() == LifecycleState::Initializing,
            !res.lifecycle_spec().initialized_spec(),
            res.lifecycle_spec().update_count_spec() == 0,
            !res.lifecycle_spec().has_updated_spec(),
    {
        InstanceDetailsPage { lifecycle: PageLifecycle::new(), content: InstanceDetailsContent }
    }

    /// Initialize the page: it becomes active.
    pub fn initialize(&mut self, _app: &mut App) -> (res: PageResult)
        ensures
            res == PageResult::Success,
            initialized_from(old(self).lifecycle_spec(), final(self).lifecycle_spec()),
            *final(_app) == *old(_app),
    {
        self.lifecycle.mark_initialized();
        PageResult::Success
    }

    /// Update the page: one more update is counted.
    pub fn update(&mut self, _app: &mut App) -> (res: PageResult)
        requires
            old(self).lifecycle_spec().update_count_spec() < u32::MAX,
        ensures
            res == PageResult::Success,
            updated_from(old(self).lifecycle_spec(), final(self).lifecycle_spec()),
            *final(_app) == *old(_app),
    {
        self.lifecycle.mark_updated();
        PageResult::Success
    }

    /// Cleanup when the page is being left.
    pub fn cleanup(&mut self, _app: &mut App) -> (res: PageResult)
        ensures
            res == PageResult::Success,
            destroyed_from(old(self).lifecycle_spec(), final(self).lifecycle_spec()),
            *final(_app) == *old(_app),
    {
        self.lifecycle.mark_destroying();
        PageResult::Success
    }

    /// Get the page lifecycle state.
    pub fn lifecycle(&self) -> (res: &PageLifecycle)
        ensures
            *res == self.lifecycle_spec(),
    {
        &self.lifecycle
    }

    /// The page lifecycle, to be changed in place.
    pub fn lifecycle_mut(&mut self) -> (res: &mut PageLifecycle)
        ensures
            *res == old(self).lifecycle_spec(),
            final(self).lifecycle_spec() == *final(res),
    {
        &mut self.lifecycle
    }

    /// The page title for display.
    pub fn title(&self) -> (res: String)
        ensures
            res@ == "Instance Details"@,
    {
        "Instance Details".to_owned()
    }

    /// Whether the page can handle back navigation.
    pub fn can_navigate_back(&self) -> (res: bool)
        ensures
            res == true,
    {
        true
    }

    /// Whether the page is currently loading.
    pub fn is_loading(&self) -> (res: bool)
        ensures
            !res,
    {
        false
    }

    /// The current error message, if any.
    pub fn error_message(&self) -> (res: Option<&String>)
        ensures
            res is None,
    {
        None
    }

    /// Handle an input event: Esc goes back to the metrics summary.
    pub fn handle_event(&mut self, event: PageEvent, _app: &mut App) -> (res: EventResult)
        ensures
            *final(self) == *old(self),
            *final(_app) == *old(_app),
            instance_details_response(event, res),
    {
        match event {
            PageEvent::Key(KeyCode::Esc) => EventResult::Action(
                PageResult::Navigate("metrics_summary".to_owned()),
            ),
            _ => EventResult::NotHandled,
        }
    }
}

impl Default for InstanceDetailsPage {
    fn default() -> (res: Self)
        ensures
            res.lifecycle_spec().state_spec() == LifecycleState::Initializing,
            !res.lifecycle_spec().initialized_spec(),
            res.lifecycle_spec().update_count_spec() == 0,
            !res.lifecycle_spec().has_updated_spec(),
    {
        Self::new()
    }
}

} // verus!
