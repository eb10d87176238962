use vstd::prelude::*;
use std::time::Instant;
use crate::models::App;
use crate::style::ThemeColor;
use crate::layout::{layout_split, middle_part, Constraint, Direction, Rect};
use crate::text::{chars_of, contains_seq, contains_str, push_owned, spec_to_lowercase, string_views, to_lowercase};
use crate::time::{duration_as_millis, instant_elapsed, instant_now};

verus! {

broadcast use vstd::string::group_string_axioms;

/// Types of errors with different visual treatments.
#[derive(Debug, Clone, Copy, PartialEq, Eq, Structural)]
pub enum ErrorType {
    /// AWS connection issues
    Network,
    /// AWS credential issues
    Authentication,
    /// Config file issues
    Configuration,
    /// Data parsing issues
    DataFormat,
    /// Invalid user input
    UserInput,
    /// System-level errors
    System,
    /// Non-critical warnings
    Warning,
    /// Informational messages
    Info,
}

/// Error feedback system for user-friendly error display and recovery.
/// `auto_dismiss_after` is in whole seconds.
#[derive(Debug, Clone)]
pub struct ErrorFeedback {
    pub error_message: Option<String>,
    pub error_type: ErrorType,
    pub error_timestamp: Option<Instant>,
    pub recovery_suggestions: Vec<String>,
    pub auto_dismiss_after: Option<u64>,
    pub dismissible: bool,
}

/// After how many seconds a message of the given type dismisses itself
/// (`None`: it stays until dismissed by hand).
pub open spec fn spec_auto_dismiss_secs(error_type: ErrorType) -> Option<u64> {
    match error_type {
        ErrorType::Info => Some(5),
        ErrorType::Warning => Some(8),
        ErrorType::UserInput => Some(10),
        ErrorType::Network | ErrorType::Authentication => Some(15),
        ErrorType::Configuration | ErrorType::DataFormat | ErrorType::System => None,
    }
}

/// The suggestions every error of the given type gets.
pub open spec fn type_suggestions(error_type: ErrorType) -> Seq<Seq<char>> {
    match error_type {
        ErrorType::Network => seq![
            "Check your internet connection"@,
            "Verify AWS region settings"@,
            "Press 'r' to retry"@,
        ],
        ErrorType::Authentication => seq![
            "Run 'aws configure' to set credentials"@,
            "Check AWS profile settings"@,
            "Verify IAM permissions"@,
        ],
        ErrorType::Configuration => seq![
            "Check configuration file syntax"@,
            "Verify file permissions"@,
            "Reset to defaults if needed"@,
        ],
        ErrorType::UserInput => seq!["Check your input format"@, "Press '?' for help"@],
        _ => seq!["Press 'r' to retry"@],
    }
}

/// The suggestions that words of the (lower-cased) message add.
pub open spec fn message_suggestions(lower: Seq<char>) -> Seq<Seq<char>> {
    (if contains_seq(lower, "timeout"@) {
        seq!["Try increasing timeout settings"@]
    } else {
        Seq::empty()
    }) + (if contains_seq(lower, "permission"@) {
        seq!["Check file/directory permissions"@]
    } else {
        Seq::empty()
    }) + (if contains_seq(lower, "not found"@) {
        seq!["Verify the resource exists"@]
    } else {
        Seq::empty()
    })
}

/// The recovery suggestions generated for a message of a given type.
pub open spec fn spec_recovery_suggestions(message: Seq<char>, error_type: ErrorType) -> Seq<
    Seq<char>,
> {
    type_suggestions(error_type) + message_suggestions(spec_to_lowercase(message))
}

/// Suggestions shown for network errors.
pub open spec fn network_suggestions() -> Seq<Seq<char>> {
    seq![
        "Check your internet connection"@,
        "Verify AWS region settings"@,
        "Press 'r' to retry the operation"@,
        "Check AWS service status"@,
    ]
}

/// Suggestions shown for authentication errors.
pub open spec fn auth_suggestions() -> Seq<Seq<char>> {
    seq![
        "Check AWS credentials (aws configure)"@,
        "Verify AWS profile settings"@,
        "Ensure proper IAM permissions"@,
        "Check AWS_PROFILE environment variable"@,
    ]
}

/// Suggestions shown for configuration errors.
pub open spec fn config_suggestions() -> Seq<Seq<char>> {
    seq![
        "Check configuration file syntax"@,
        "Verify file permissions"@,
        "Reset to default configuration"@,
        "Check configuration file location"@,
    ]
}

/// Suggestions shown for user input errors.
pub open spec fn user_input_suggestions() -> Seq<Seq<char>> {
    seq!["Check your input format"@, "Try a different selection"@, "Press '?' for help"@]
}

/// The title of the error panel of an error type.
pub open spec fn spec_error_title(error_type: ErrorType) -> Seq<char> {
    match error_type {
        ErrorType::Network => "Network Error"@,
        ErrorType::Authentication => "Authentication Error"@,
        ErrorType::Configuration => "Configuration Error"@,
        ErrorType::DataFormat => "Data Format Error"@,
        ErrorType::UserInput => "Input Error"@,
        ErrorType::System => "System Error"@,
        ErrorType::Warning => "Warning"@,
        ErrorType::Info => "Information"@,
    }
}

/// The border colour of the error panel of an error type.
pub open spec fn spec_error_accent(error_type: ErrorType) -> ThemeColor {
    match error_type {
        ErrorType::Network | ErrorType::DataFormat | ErrorType::Warning => ThemeColor::Warning,
        ErrorType::Authentication | ErrorType::Configuration | ErrorType::System => ThemeColor::Error,
        ErrorType::UserInput | ErrorType::Info => ThemeColor::Info,
    }
}

impl ErrorFeedback {
    /// Whether a message is shown.
    pub open spec fn has_error_spec(&self) -> bool {
        self.error_message.is_some()
    }

    /// The state after `set_error(message, error_type)` applied to `old`, but for the
    /// recovery suggestions and the timestamp, which the caller states.
    pub open spec fn set_common(old: ErrorFeedback, new: ErrorFeedback, message: Seq<char>, error_type: ErrorType) -> bool {
        &&& new.error_message is Some
        &&& new.error_message.unwrap()@ == message
        &&& new.error_type == error_type
        &&& new.error_timestamp is Some
        &&& new.auto_dismiss_after == spec_auto_dismiss_secs(error_type)
        &&& new.dismissible == old.dismissible
    }

    pub fn new() -> (res: Self)
        ensures
            res.error_message is None,
            res.error_type == ErrorType::System,
            res.error_timestamp is None,
            res.recovery_suggestions@.len() == 0,
            res.auto_dismiss_after == Some(10u64),
            res.dismissible,
    {
        ErrorFeedback {
            error_message: None,
            error_type: ErrorType::System,
            error_timestamp: None,
            recovery_suggestions: Vec::new(),
            auto_dismiss_after: Some(10),
            dismissible: true,
        }
    }

    /// Set an error with automatic recovery suggestions.
    pub fn set_error(&mut self, message: String, error_type: ErrorType)
        ensures
            Self::set_common(*old(self), *final(self), message@, error_type),
            string_views(final(self).recovery_suggestions@) == spec_recovery_suggestions(
                message@,
                error_type,
            ),
    {
        let suggestions = self.generate_recovery_suggestions(message.as_str(), &error_type);
        self.error_message = Some(message);
        self.error_type = error_type;
        self.error_timestamp = Some(instant_now());
        self.recovery_suggestions = suggestions;
        self.auto_dismiss_after = match error_type {
            ErrorType::Info => Some(5),
            ErrorType::Warning => Some(8),
            ErrorType::UserInput => Some(10),
            ErrorType::Network | ErrorType::Authentication => Some(15),
            ErrorType::Configuration | ErrorType::DataFormat | ErrorType::System => None,
        };
    }

    /// Set a network error with specific recovery suggestions.
    pub fn set_network_error(&mut self, message: String)
        ensures
            Self::set_common(*old(self), *final(self), message@, ErrorType::Network),
            string_views(final(self).recovery_suggestions@) == network_suggestions(),
    {
        self.set_error(message, ErrorType::Network);
        let mut s: Vec<String> = Vec::new();
        push_owned(&mut s, "Check your internet connection");
        push_owned(&mut s, "Verify AWS region settings");
        push_owned(&mut s, "Press 'r' to retry the operation");
        push_owned(&mut s, "Check AWS service status");
        self.recovery_suggestions = s;
        proof {
            assert(string_views(self.recovery_suggestions@) =~= network_suggestions());
        }
    }

    /// Set an authentication error with specific recovery suggestions.
    pub fn set_auth_error(&mut self, message: String)
        ensures
            Self::set_common(*old(self), *final(self), message@, ErrorType::Authentication),
            string_views(final(self).recovery_suggestions@) == auth_suggestions(),
    {
        self.set_error(message, ErrorType::Authentication);
        let mut s: Vec<String> = Vec::new();
        push_owned(&mut s, "Check AWS credentials (aws configure)");
        push_owned(&mut s, "Verify AWS profile settings");
        push_owned(&mut s, "Ensure proper IAM permissions");
        push_owned(&mut s, "Check AWS_PROFILE environment variable");
        self.recovery_suggestions = s;
        proof {
            assert(string_views(self.recovery_suggestions@) =~= auth_suggestions());
        }
    }

    /// Set a configuration error with specific recovery suggestions.
    pub fn set_config_error(&mut self, message: String)
        ensures
            Self::set_common(*old(self), *final(self), message@, ErrorType::Configuration),
            string_views(final(self).recovery_suggestions@) == config_suggestions(),
    {
        self.set_error(message, ErrorType::Configuration);
        let mut s: Vec<String> = Vec::new();
        push_owned(&mut s, "Check configuration file syntax");
        push_owned(&mut s, "Verify file permissions");
        push_owned(&mut s, "Reset to default configuration");
        push_owned(&mut s, "Check configuration file location");
        self.recovery_suggestions = s;
        proof {
            assert(string_views(self.recovery_suggestions@) =~= config_suggestions());
        }
    }

    /// Set a user input error with specific recovery suggestions.
    pub fn set_user_input_error(&mut self, message: String)
        ensures
            Self::set_common(*old(self), *final(self), message@, ErrorType::UserInput),
            string_views(final(self).recovery_suggestions@) == user_input_suggestions(),
    {
        self.set_error(message, ErrorType::UserInput);
        let mut s: Vec<String> = Vec::new();
        push_owned(&mut s, "Check your input format");
        push_owned(&mut s, "Try a different selection");
        push_owned(&mut s, "Press '?' for help");
        self.recovery_suggestions = s;
        proof {
            assert(string_views(self.recovery_suggestions@) =~= user_input_suggestions());
        }
    }

    /// Set an informational message.
    pub fn set_info(&mut self, message: String)
        ensures
            Self::set_common(*old(self), *final(self), message@, ErrorType::Info),
            final(self).recovery_suggestions@.len() == 0,
    {
        self.set_error(message, ErrorType::Info);
        self.recovery_suggestions = Vec::new();
    }

    /// Set a warning message.
    pub fn set_warning(&mut self, message: String)
        ensures
            Self::set_common(*old(self), *final(self), message@, ErrorType::Warning),
            string_views(final(self).recovery_suggestions@) == spec_recovery_suggestions(
                message@,
                ErrorType::Warning,
            ),
    {
        self.set_error(message, ErrorType::Warning);
    }

    /// Clear the current error.
    pub fn clear(&mut self)
        ensures
            final(self).error_message is None,
            final(self).error_timestamp is None,
            final(self).recovery_suggestions@.len() == 0,
            final(self).error_type == old(self).error_type,
            final(self).auto_dismiss_after == old(self).auto_dismiss_after,
            final(self).dismissible == old(self).dismissible,
    {
        self.error_message = None;
        self.error_timestamp = None;
        self.recovery_suggestions.clear();
    }

    /// Whether a message set `elapsed_millis` milliseconds ago is due to be dismissed.
    pub fn should_auto_dismiss_after(&self, elapsed_millis: u128) -> (res: bool)
        ensures
            res == (self.error_timestamp is Some && self.auto_dismiss_after is Some
                && elapsed_millis >= self.auto_dismiss_after.unwrap() * 1000),
    {
        match (&self.error_timestamp, self.auto_dismiss_after) {
            (Some(_), Some(secs)) => elapsed_millis >= (secs as u128) * 1000,
            _ => false,
        }
    }

    /// Check if error should be auto-dismissed. It can only be due when a message
    /// was set with a dismiss delay, and it is due at once when that delay is zero;
    /// whether a longer delay has passed depends on the clock.
    pub fn should_auto_dismiss(&self) -> (res: bool)
        ensures
            res ==> self.error_timestamp is Some && self.auto_dismiss_after is Some,
            self.error_timestamp is Some && self.auto_dismiss_after == Some(0u64) ==> res,
    {
        match &self.error_timestamp {
            Some(timestamp) => {
                let elapsed = instant_elapsed(timestamp);
                let millis = duration_as_millis(&elapsed);
                self.should_auto_dismiss_after(millis)
            },
            None => false,
        }
    }

    /// The area of the error panel in `full_area`: below a two-line margin, as
    /// many lines as the panel needs (8 and one per suggestion), across the middle
    /// 60 percent of the width.
    pub fn get_error_area(&self, full_area: Rect) -> (res: Rect)
        requires
            self.recovery_suggestions@.len() + 8 <= u16::MAX,
        ensures
            res == middle_part(
                Direction::Horizontal,
                seq![Constraint::Percentage(20), Constraint::Percentage(60), Constraint::Percentage(20)],
                middle_part(
                    Direction::Vertical,
                    seq![
                        Constraint::Length(2),
                        Constraint::Length((8 + self.recovery_suggestions@.len()) as u16),
                        Constraint::Min(0),
                    ],
                    full_area,
                ),
            ),
    {
        let lines = 8 + self.recovery_suggestions.len() as u16;
        let rows = vec![Constraint::Length(2), Constraint::Length(lines), Constraint::Min(0)];
        let parts = layout_split(Direction::Vertical, &rows, full_area);
        let cols = vec![Constraint::Percentage(20), Constraint::Percentage(60), Constraint::Percentage(20)];
        let inner = layout_split(Direction::Horizontal, &cols, parts[1]);
        proof {
            assert(rows@ =~= seq![
                Constraint::Length(2),
                Constraint::Length((8 + self.recovery_suggestions@.len()) as u16),
                Constraint::Min(0),
            ]);
            assert(cols@ =~= seq![Constraint::Percentage(20), Constraint::Percentage(60), Constraint::Percentage(20)]);
        }
        inner[1]
    }

    /// The title of the error panel, by error type.
    pub fn get_error_title(&self) -> (res: &'static str)
        ensures
            res@ == spec_error_title(self.error_type),
    {
        match self.error_type {
            ErrorType::Network => "Network Error",
            ErrorType::Authentication => "Authentication Error",
            ErrorType::Configuration => "Configuration Error",
            ErrorType::DataFormat => "Data Format Error",
            ErrorType::UserInput => "Input Error",
            ErrorType::System => "System Error",
            ErrorType::Warning => "Warning",
            ErrorType::Info => "Information",
        }
    }

    /// The theme colours of the error panel (background, border, text), by error
    /// type.
    pub fn get_error_colors(&self) -> (res: (ThemeColor, ThemeColor, ThemeColor))
        ensures
            res == (ThemeColor::Background, spec_error_accent(self.error_type), ThemeColor::Primary),
    {
        let accent = match self.error_type {
            ErrorType::Network => ThemeColor::Warning,
            ErrorType::Authentication => ThemeColor::Error,
            ErrorType::Configuration => ThemeColor::Error,
            ErrorType::DataFormat => ThemeColor::Warning,
            ErrorType::UserInput => ThemeColor::Info,
            ErrorType::System => ThemeColor::Error,
            ErrorType::Warning => ThemeColor::Warning,
            ErrorType::Info => ThemeColor::Info,
        };
        (ThemeColor::Background, accent, ThemeColor::Primary)
    }

    /// Check if there's an active error.
    pub fn has_error(&self) -> (res: bool)
        ensures
            res == self.has_error_spec(),
    {
        self.error_message.is_some()
    }

    /// Get the current error message.
    pub fn get_error(&self) -> (res: Option<&String>)
        ensures
            res == match self.error_message {
                Some(m) => Some(&m),
                None => None::<&String>,
            },
    {
        match &self.error_message {
            Some(m) => Some(m),
            None => None,
        }
    }

    /// Generate recovery suggestions based on error message and type.
    fn generate_recovery_suggestions(&self, message: &str, error_type: &ErrorType) -> (res: Vec<
        String,
    >)
        ensures
            string_views(res@) == spec_recovery_suggestions(message@, *error_type),
    {
        let mut suggestions: Vec<String> = Vec::new();
        match error_type {
            ErrorType::Network => {
                push_owned(&mut suggestions, "Check your internet connection");
                push_owned(&mut suggestions, "Verify AWS region settings");
                push_owned(&mut suggestions, "Press 'r' to retry");
            },
            ErrorType::Authentication => {
                push_owned(&mut suggestions, "Run 'aws configure' to set credentials");
                push_owned(&mut suggestions, "Check AWS profile settings");
                push_owned(&mut suggestions, "Verify IAM permissions");
            },
            ErrorType::Configuration => {
                push_owned(&mut suggestions, "Check configuration file syntax");
                push_owned(&mut suggestions, "Verify file permissions");
                push_owned(&mut suggestions, "Reset to defaults if needed");
            },
            ErrorType::UserInput => {
                push_owned(&mut suggestions, "Check your input format");
                push_owned(&mut suggestions, "Press '?' for help");
            },
            _ => {
                push_owned(&mut suggestions, "Press 'r' to retry");
            },
        }
        let ghost typed = string_views(suggestions@);
        assert(typed =~= type_suggestions(*error_type));
        let lower = to_lowercase(message);
        let lower_chars = chars_of(lower.as_str());
        let has_timeout = contains_str(&lower_chars, "timeout");
        let has_permission = contains_str(&lower_chars, "permission");
        let has_not_found = contains_str(&lower_chars, "not found");
        if has_timeout {
            push_owned(&mut suggestions, "Try increasing timeout settings");
        }
        let ghost after_timeout = string_views(suggestions@);
        if has_permission {
            push_owned(&mut suggestions, "Check file/directory permissions");
        }
        let ghost after_permission = string_views(suggestions@);
        if has_not_found {
            push_owned(&mut suggestions, "Verify the resource exists");
        }
        proof {
            let lw = spec_to_lowercase(message@);
            let t = if contains_seq(lw, "timeout"@) {
                seq!["Try increasing timeout settings"@]
            } else {
                Seq::<Seq<char>>::empty()
            };
            let p = if contains_seq(lw, "permission"@) {
                seq!["Check file/directory permissions"@]
            } else {
                Seq::<Seq<char>>::empty()
            };
            let n = if contains_seq(lw, "not found"@) {
                seq!["Verify the resource exists"@]
            } else {
                Seq::<Seq<char>>::empty()
            };
            assert(after_timeout =~= typed + t);
            assert(after_permission =~= typed + t + p);
            assert(string_views(suggestions@) =~= typed + t + p + n);
            assert(message_suggestions(lw) =~= t + p + n);
        }
        suggestions
    }
}

impl Default for ErrorFeedback {
    fn default() -> (res: Self)
        ensures
            res.error_message is None,
            res.error_type == ErrorType::System,
            res.error_timestamp is None,
            res.recovery_suggestions@.len() == 0,
            res.auto_dismiss_after == Some(10u64),
            res.dismissible,
    {
        ErrorFeedback::new()
    }
}

/// Error feedback carried by the application state.
pub trait ErrorFeedbackExt {
    fn get_error_feedback(&self) -> &ErrorFeedback;
    fn get_error_feedback_mut(&mut self) -> &mut ErrorFeedback;
    fn set_error(&mut self, message: String, error_type: ErrorType);
    fn set_network_error(&mut self, message: String);
    fn set_auth_error(&mut self, message: String);
    fn set_config_error(&mut self, message: String);
    fn set_user_input_error(&mut self, message: String);
    fn set_info(&mut self, message: String);
    fn set_warning(&mut self, message: String);
    fn clear_error_feedback(&mut self);
    fn has_error_feedback(&self) -> bool;
}

/// `new` is `old` with its error feedback replaced.
pub open spec fn feedback_replaced(old: App, new: App) -> bool {
    new == App { error_feedback: new.error_feedback, ..old }
}

impl ErrorFeedbackExt for App {
    fn get_error_feedback(&self) -> (res: &ErrorFeedback)
        ensures
            *res == self.error_feedback,
    {
        &self.error_feedback
    }

    fn get_error_feedback_mut(&mut self) -> (res: &mut ErrorFeedback)
        ensures
            *res == old(self).error_feedback,
            *final(self) == (App { error_feedback: *final(res), ..*old(self) }),
    {
        &mut self.error_feedback
    }

    fn set_error(&mut self, message: String, error_type: ErrorType)
        ensures
            feedback_replaced(*old(self), *final(self)),
            ErrorFeedback::set_common(old(self).error_feedback, final(self).error_feedback, message@, error_type),
            string_views(final(self).error_feedback.recovery_suggestions@) == spec_recovery_suggestions(
                message@,
                error_type,
            ),
    {
        self.error_feedback.set_error(message, error_type);
    }

    fn set_network_error(&mut self, message: String)
        ensures
            feedback_replaced(*old(self), *final(self)),
            ErrorFeedback::set_common(old(self).error_feedback, final(self).error_feedback, message@, ErrorType::Network),
            string_views(final(self).error_feedback.recovery_suggestions@) == network_suggestions(),
    {
        self.error_feedback.set_network_error(message);
    }

    fn set_auth_error(&mut self, message: String)
        ensures
            feedback_replaced(*old(self), *final(self)),
            ErrorFeedback::set_common(
                old(self).error_feedback,
                final(self).error_feedback,
                message@,
                ErrorType::Authentication,
            ),
            string_views(final(self).error_feedback.recovery_suggestions@) == auth_suggestions(),
    {
        self.error_feedback.set_auth_error(message);
    }

    fn set_config_error(&mut self, message: String)
        ensures
            feedback_replaced(*old(self), *final(self)),
            ErrorFeedback::set_common(
                old(self).error_feedback,
                final(self).error_feedback,
                message@,
                ErrorType::Configuration,
            ),
            string_views(final(self).error_feedback.recovery_suggestions@) == config_suggestions(),
    {
        self.error_feedback.set_config_error(message);
    }

    fn set_user_input_error(&mut self, message: String)
        ensures
            feedback_replaced(*old(self), *final(self)),
            ErrorFeedback::set_common(old(self).error_feedback, final(self).error_feedback, message@, ErrorType::UserInput),
            string_views(final(self).error_feedback.recovery_suggestions@) == user_input_suggestions(),
    {
        self.error_feedback.set_user_input_error(message);
    }

    fn set_info(&mut self, message: String)
        ensures
            feedback_replaced(*old(self), *final(self)),
            ErrorFeedback::set_common(old(self).error_feedback, final(self).error_feedback, message@, ErrorType::Info),
            final(self).error_feedback.recovery_suggestions@.len() == 0,
    {
        self.error_feedback.set_info(message);
    }

    fn set_warning(&mut self, message: String)
        ensures
            feedback_replaced(*old(self), *final(self)),
            ErrorFeedback::set_common(old(self).error_feedback, final(self).error_feedback, message@, ErrorType::Warning),
            string_views(final(self).error_feedback.recovery_suggestions@) == spec_recovery_suggestions(
                message@,
                ErrorType::Warning,
            ),
    {
        self.error_feedback.set_warning(message);
    }

    fn clear_error_feedback(&mut self)
        ensures
            feedback_replaced(*old(self), *final(self)),
            !final(self).error_feedback.has_error_spec(),
            final(self).error_feedback.error_timestamp is None,
            final(self).error_feedback.recovery_suggestions@.len() == 0,
            final(self).error_feedback.error_type == old(self).error_feedback.error_type,
            final(self).error_feedback.auto_dismiss_after == old(self).error_feedback.auto_dismiss_after,
            final(self).error_feedback.dismissible == old(self).error_feedback.dismissible,
    {
        self.error_feedback.clear();
    }

    fn has_error_feedback(&self) -> (res: bool)
        ensures
            res == self.error_feedback.has_error_spec(),
    {
        self.error_feedback.has_error()
    }
}

} // verus!
