//! Results of page operations and event handling.
use vstd::prelude::*;

verus! {

/// Result type for page operations.
#[derive(Debug, Clone, PartialEq, Eq)]
pub enum PageResult {
    /// Page operation completed successfully
    Success,
    /// Page needs to be refreshed
    Refresh,
    /// Page encountered an error
    Error(String),
    /// Page requests navigation to another page
    Navigate(String),
}

/// Result type for event handling.
#[derive(Debug, Clone, PartialEq, Eq)]
pub enum EventResult {
    /// Event was handled successfully
    Handled,
    /// Event was not handled by this page
    NotHandled,
    /// Event triggered a page action
    Action(PageResult),
}

/// The keys the pages react to; every other key is `Other`.
#[derive(Debug, Clone, Copy, PartialEq, Eq, Structural)]
pub enum KeyCode {
    Up,
    Down,
    Enter,
    Esc,
    Other,
}

/// An input event as the pages see it: a key, or anything else (mouse, resize, focus).
#[derive(Debug, Clone, Copy, PartialEq, Eq, Structural)]
pub enum PageEvent {
    Key(KeyCode),
    Other,
}

} // verus!
