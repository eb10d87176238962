use vstd::prelude::*;
use crate::models::{App, AppState, FocusedPanel};
use crate::text::{pad_right, spec_pad_right};

verus! {

broadcast use vstd::string::group_string_axioms;

/// Help system state.
#[derive(Debug, Clone)]
pub struct HelpSystem {
    pub visible: bool,
    pub current_context: HelpContext,
}

/// Different help contexts based on current application state.
#[derive(Debug, Clone, Copy, PartialEq, Eq, Structural)]
pub enum HelpContext {
    ServiceList,
    InstanceList,
    MetricsSummary,
    InstanceDetails,
    Global,
}

/// A keyboard shortcut as shown in the help overlay: key, description, category.
pub type ShortcutView = (Seq<char>, Seq<char>, Seq<char>);

/// The character views of a list of shortcuts.
pub open spec fn shortcut_views(v: Seq<(String, String, String)>) -> Seq<ShortcutView> {
    v.map_values(|t: (String, String, String)| (t.0@, t.1@, t.2@))
}

/// The help context of a screen.
pub open spec fn context_for_state(state: AppState) -> HelpContext {
    match state {
        AppState::ServiceList => HelpContext::ServiceList,
        AppState::InstanceList => HelpContext::InstanceList,
        AppState::MetricsSummary => HelpContext::MetricsSummary,
        AppState::InstanceDetails => HelpContext::InstanceDetails,
    }
}

/// The name of a help context as shown in the overlay header.
pub open spec fn spec_context_name(context: HelpContext) -> Seq<char> {
    match context {
        HelpContext::ServiceList => "Service Selection"@,
        HelpContext::InstanceList => "Instance List"@,
        HelpContext::MetricsSummary => "Metrics Summary"@,
        HelpContext::InstanceDetails => "Instance Details"@,
        HelpContext::Global => "Global"@,
    }
}

/// Shortcuts available everywhere.
pub open spec fn global_shortcuts() -> Seq<ShortcutView> {
        seq![
            ("q"@, "Quit application"@, "Global"@),
            ("t"@, "Switch theme"@, "Global"@),
            ("? / h"@, "Toggle help"@, "Global"@),
            ("r"@, "Refresh data"@, "Global"@),
        ]
}

/// Shortcuts of a context, before any panel-specific one.
pub open spec fn context_shortcuts(context: HelpContext) -> Seq<ShortcutView> {
        match context {
            HelpContext::ServiceList => seq![
                ("↑ / k"@, "Move up"@, "Navigation"@),
                ("↓ / j"@, "Move down"@, "Navigation"@),
                ("Enter"@, "Select service"@, "Action"@),
            ],
            HelpContext::InstanceList => seq![
                ("↑ / k"@, "Move up"@, "Navigation"@),
                ("↓ / j"@, "Move down"@, "Navigation"@),
                ("Enter"@, "View metrics"@, "Action"@),
                ("Esc"@, "Back to services"@, "Navigation"@),
            ],
            HelpContext::MetricsSummary => seq![
                ("↑↓ / jk"@, "Navigate vertically"@, "Navigation"@),
                ("←→ / hl"@, "Navigate horizontally"@, "Navigation"@),
                ("Tab"@, "Switch panel"@, "Navigation"@),
                ("Enter"@, "Apply selection / View details"@, "Action"@),
                ("Esc"@, "Back to instances"@, "Navigation"@),
            ],
            HelpContext::InstanceDetails => seq![
                ("↑ / k"@, "Previous metric"@, "Navigation"@),
                ("↓ / j"@, "Next metric"@, "Navigation"@),
                ("Esc"@, "Back to summary"@, "Navigation"@),
            ],
            HelpContext::Global => Seq::empty(),
        }
}

/// The shortcut of the focused panel on the metrics summary screen.
pub open spec fn panel_shortcut(panel: FocusedPanel) -> ShortcutView {
        match panel {
            FocusedPanel::Timezone => ("↑↓"@, "Select timezone"@, "Timezone"@),
            FocusedPanel::Period => ("↑↓"@, "Select period"@, "Period"@),
            FocusedPanel::TimeRanges => ("↑↓←→"@, "Select time range"@, "Time Range"@),
            FocusedPanel::SparklineGrid => ("↑↓←→"@, "Navigate metrics grid"@, "Metrics"@),
        }
}

/// All shortcuts listed for a context: the global ones, the context's own, and on the
/// metrics summary the one of the focused panel.
pub open spec fn spec_shortcuts(context: HelpContext, panel: FocusedPanel) -> Seq<ShortcutView> {
    global_shortcuts() + context_shortcuts(context) + if context == HelpContext::MetricsSummary {
        seq![panel_shortcut(panel)]
    } else {
        Seq::empty()
    }
}

fn push_shortcut(v: &mut Vec<(String, String, String)>, key: &str, description: &str, category: &str)
    ensures
        shortcut_views(final(v)@) == shortcut_views(old(v)@).push((key@, description@, category@)),
{
    v.push((key.to_owned(), description.to_owned(), category.to_owned()));
    proof {
        assert(shortcut_views(v@) =~= shortcut_views(old(v)@).push((key@, description@, category@)));
    }
}

/// The help system with its overlay shown if it was hidden and hidden if shown.
pub open spec fn toggled(h: HelpSystem) -> HelpSystem {
    HelpSystem { visible: !h.visible, ..h }
}

/// Toggling the overlay twice leaves the help system as it was.
pub proof fn lemma_toggle_twice(h: HelpSystem)
    ensures
        toggled(toggled(h)) == h,
{
}

impl HelpSystem {
    pub fn new() -> (res: Self)
        ensures
            !res.visible,
            res.current_context == HelpContext::Global,
    {
        HelpSystem { visible: false, current_context: HelpContext::Global }
    }

    pub fn toggle(&mut self)
        ensures
            *final(self) == toggled(*old(self)),
    {
        self.visible = !self.visible;
    }

    pub fn show(&mut self)
        ensures
            final(self).visible,
            final(self).current_context == old(self).current_context,
    {
        self.visible = true;
    }

    pub fn hide_overlay(&mut self)
        ensures
            !final(self).visible,
            final(self).current_context == old(self).current_context,
    {
        self.visible = false;
    }

    pub fn update_context(&mut self, app_state: &AppState)
        ensures
            final(self).current_context == context_for_state(*app_state),
            final(self).visible == old(self).visible,
    {
        self.current_context = match app_state {
            AppState::ServiceList => HelpContext::ServiceList,
            AppState::InstanceList => HelpContext::InstanceList,
            AppState::MetricsSummary => HelpContext::MetricsSummary,
            AppState::InstanceDetails => HelpContext::InstanceDetails,
        };
    }

    /// The name of the current context, as shown in the overlay header.
    pub fn get_context_name(&self) -> (name: &'static str)
        ensures
            name@ == spec_context_name(self.current_context),
    {
        match self.current_context {
            HelpContext::ServiceList => "Service Selection",
            HelpContext::InstanceList => "Instance List",
            HelpContext::MetricsSummary => "Metrics Summary",
            HelpContext::InstanceDetails => "Instance Details",
            HelpContext::Global => "Global",
        }
    }

    /// The keyboard shortcuts listed for the current context.
    pub fn get_keyboard_shortcuts(&self, app: &App) -> (res: Vec<(String, String, String)>)
        ensures
            shortcut_views(res@) == spec_shortcuts(self.current_context, app.focused_panel),
    {
        let mut shortcuts: Vec<(String, String, String)> = Vec::new();
        push_shortcut(&mut shortcuts, "q", "Quit application", "Global");
        push_shortcut(&mut shortcuts, "t", "Switch theme", "Global");
        push_shortcut(&mut shortcuts, "? / h", "Toggle help", "Global");
        push_shortcut(&mut shortcuts, "r", "Refresh data", "Global");
        let ghost global_part = shortcut_views(shortcuts@);
        assert(global_part =~= global_shortcuts());
        match self.current_context {
            HelpContext::ServiceList => {
                push_shortcut(&mut shortcuts, "↑ / k", "Move up", "Navigation");
                push_shortcut(&mut shortcuts, "↓ / j", "Move down", "Navigation");
                push_shortcut(&mut shortcuts, "Enter", "Select service", "Action");
            },
            HelpContext::InstanceList => {
                push_shortcut(&mut shortcuts, "↑ / k", "Move up", "Navigation");
                push_shortcut(&mut shortcuts, "↓ / j", "Move down", "Navigation");
                push_shortcut(&mut shortcuts, "Enter", "View metrics", "Action");
                push_shortcut(&mut shortcuts, "Esc", "Back to services", "Navigation");
            },
            HelpContext::MetricsSummary => {
                push_shortcut(&mut shortcuts, "↑↓ / jk", "Navigate vertically", "Navigation");
                push_shortcut(&mut shortcuts, "←→ / hl", "Navigate horizontally", "Navigation");
                push_shortcut(&mut shortcuts, "Tab", "Switch panel", "Navigation");
                push_shortcut(&mut shortcuts, "Enter", "Apply selection / View details", "Action");
                push_shortcut(&mut shortcuts, "Esc", "Back to instances", "Navigation");
                match app.focused_panel {
                    FocusedPanel::Timezone => {
                        push_shortcut(&mut shortcuts, "↑↓", "Select timezone", "Timezone");
                    },
                    FocusedPanel::Period => {
                        push_shortcut(&mut shortcuts, "↑↓", "Select period", "Period");
                    },
                    FocusedPanel::TimeRanges => {
                        push_shortcut(&mut shortcuts, "↑↓←→", "Select time range", "Time Range");
                    },
                    FocusedPanel::SparklineGrid => {
                        push_shortcut(&mut shortcuts, "↑↓←→", "Navigate metrics grid", "Metrics");
                    },
                }
            },
            HelpContext::InstanceDetails => {
                push_shortcut(&mut shortcuts, "↑ / k", "Previous metric", "Navigation");
                push_shortcut(&mut shortcuts, "↓ / j", "Next metric", "Navigation");
                push_shortcut(&mut shortcuts, "Esc", "Back to summary", "Navigation");
            },
            HelpContext::Global => {},
        }
        proof {
            assert(shortcut_views(shortcuts@) =~= spec_shortcuts(self.current_context, app.focused_panel));
        }
        shortcuts
    }
}

impl Default for HelpSystem {
    fn default() -> (res: Self)
        ensures
            !res.visible,
            res.current_context == HelpContext::Global,
    {
        HelpSystem::new()
    }
}

/// The two lines of a help entry: the key padded to 12 characters, a space and the
/// description; then the category in brackets, indented by 12 spaces.
pub open spec fn help_entry(s: ShortcutView) -> (Seq<char>, Seq<char>, Seq<char>) {
    (spec_pad_right(s.0, 12), s.1, "("@ + s.2 + ")"@)
}

impl HelpSystem {
    /// The text of the help entries for the current context and focused panel:
    /// for each shortcut, the padded key, the description and the bracketed
    /// category.
    pub fn help_entries(&self, app: &App) -> (res: Vec<(String, String, String)>)
        ensures
            res@.len() == spec_shortcuts(self.current_context, app.focused_panel).len(),
            forall|i: int| 0 <= i < res@.len() ==> shortcut_views(res@)[i] == help_entry(
                #[trigger] spec_shortcuts(self.current_context, app.focused_panel)[i],
            ),
    {
        let shortcuts = self.get_keyboard_shortcuts(app);
        let mut res: Vec<(String, String, String)> = Vec::new();
        let mut i: usize = 0;
        while i < shortcuts.len()
            invariant
                0 <= i <= shortcuts@.len(),
                shortcut_views(shortcuts@) == spec_shortcuts(self.current_context, app.focused_panel),
                res@.len() == i,
                forall|k: int| 0 <= k < i ==> shortcut_views(res@)[k] == help_entry(#[trigger] shortcut_views(shortcuts@)[k]),
            decreases shortcuts@.len() - i,
        {
            let key = pad_right(shortcuts[i].0.as_str(), 12);
            let mut category = "(".to_owned();
            category.append(shortcuts[i].2.as_str());
            category.append(")");
            let description = shortcuts[i].1.clone();
            let ghost before = res@;
            res.push((key, description, category));
            proof {
                assert forall|k: int| 0 <= k < i + 1 implies shortcut_views(res@)[k] == help_entry(#[trigger] shortcut_views(shortcuts@)[k]) by {
                    if k < i {
                        assert(res@[k] == before[k]);
                    }
                }
            }
            i = i + 1;
        }
        res
    }

    /// The header line of the help overlay.
    pub fn header_text(&self) -> (res: String)
        ensures
            res@ == "Context: "@ + spec_context_name(self.current_context) + " | Press '?' or 'h' to close"@,
    {
        let mut res = "Context: ".to_owned();
        res.append(self.get_context_name());
        res.append(" | Press '?' or 'h' to close");
        res
    }
}

/// Help overlay carried by the application state.
pub trait HelpSystemExt {
    fn get_help_system(&self) -> &HelpSystem;
    fn get_help_system_mut(&mut self) -> &mut HelpSystem;
    fn toggle_help(&mut self);
    fn update_help_context(&mut self);
}

impl HelpSystemExt for App {
    fn get_help_system(&self) -> (res: &HelpSystem)
        ensures
            *res == self.help_system,
    {
        &self.help_system
    }

    fn get_help_system_mut(&mut self) -> (res: &mut HelpSystem)
        ensures
            *res == old(self).help_system,
            *final(self) == (App { help_system: *final(res), ..*old(self) }),
    {
        &mut self.help_system
    }

    /// Show or hide the help overlay, with the context of the current screen.
    fn toggle_help(&mut self)
        ensures
            *final(self) == (App {
                help_system: HelpSystem {
                    visible: !old(self).help_system.visible,
                    current_context: context_for_state(old(self).state),
                },
                ..*old(self)
            }),
    {
        self.help_system.toggle();
        self.update_help_context();
    }

    /// Make the help context follow the current screen.
    fn update_help_context(&mut self)
        ensures
            *final(self) == (App {
                help_system: HelpSystem {
                    visible: old(self).help_system.visible,
                    current_context: context_for_state(old(self).state),
                },
                ..*old(self)
            }),
    {
        let state = self.state;
        self.help_system.update_context(&state);
    }
}

} // verus!
