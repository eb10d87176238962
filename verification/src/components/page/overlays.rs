//! Overlay components for loading and error states.
use vstd::prelude::*;
use crate::layout::{center_area, spec_center_area, Rect};

verus! {

broadcast use vstd::string::group_string_axioms;

/// Types of overlays that can be displayed.
#[derive(Debug, Clone)]
pub enum OverlayType {
    /// Loading overlay with optional message
    Loading(Option<String>),
    /// Error overlay with error message
    Error(String),
    /// Information overlay with message
    Info(String),
    /// Confirmation overlay with message and options
    Confirmation(String, Vec<String>),
}

/// Loading overlay component.
#[derive(Debug, Clone)]
pub struct LoadingOverlay {
    pub message: String,
    pub show_spinner: bool,
}

impl LoadingOverlay {
    /// Create a new loading overlay.
    pub fn new(message: &str) -> (res: Self)
        ensures
            res.message@ == message@,
            res.show_spinner,
    {
        LoadingOverlay { message: message.to_owned(), show_spinner: true }
    }

    /// Create a loading overlay with default message.
    pub fn default() -> (res: Self)
        ensures
            res.message@ == "Loading..."@,
            res.show_spinner,
    {
        Self::new("Loading...")
    }

    /// Set whether to show spinner animation.
    pub fn with_spinner(self, show_spinner: bool) -> (res: Self)
        ensures
            res.message == self.message,
            res.show_spinner == show_spinner,
    {
        LoadingOverlay { message: self.message, show_spinner }
    }

    /// The text shown: the message, after a spinner frame when the spinner is on.
    pub fn display_message(&self) -> (res: String)
        ensures
            res@ == (if self.show_spinner { "⠋ "@ + self.message@ } else { self.message@ }),
    {
        if self.show_spinner {
            let mut res = "⠋ ".to_owned();
            res.append(self.message.as_str());
            res
        } else {
            self.message.clone()
        }
    }

    /// The area of the overlay: 40 by 8 cells in the middle of `area`.
    pub fn overlay_area(&self, area: Rect) -> (res: Rect)
        ensures
            res == spec_center_area(area, 40, 8),
    {
        self.center_area(area, 40, 8)
    }

    /// Calculate centered area for overlay.
    pub fn center_area(&self, area: Rect, width: u16, height: u16) -> (res: Rect)
        ensures
            res == spec_center_area(area, width, height),
    {
        center_area(area, width, height)
    }
}

/// Error overlay component.
#[derive(Debug, Clone)]
pub struct ErrorOverlay {
    pub title: String,
    pub message: String,
    pub show_details: bool,
}

impl ErrorOverlay {
    /// Create a new error overlay.
    pub fn new(title: &str, message: &str) -> (res: Self)
        ensures
            res.title@ == title@,
            res.message@ == message@,
            !res.show_details,
    {
        ErrorOverlay { title: title.to_owned(), message: message.to_owned(), show_details: false }
    }

    /// Create an error overlay with default title.
    pub fn with_message(message: &str) -> (res: Self)
        ensures
            res.title@ == "Error"@,
            res.message@ == message@,
            !res.show_details,
    {
        Self::new("Error", message)
    }

    /// Set whether to show detailed error information.
    pub fn with_details(self, show_details: bool) -> (res: Self)
        ensures
            res.title == self.title,
            res.message == self.message,
            res.show_details == show_details,
    {
        ErrorOverlay { title: self.title, message: self.message, show_details }
    }

    /// The area of the overlay: 60 by 10 cells in the middle of `area`.
    pub fn overlay_area(&self, area: Rect) -> (res: Rect)
        ensures
            res == spec_center_area(area, 60, 10),
    {
        self.center_area(area, 60, 10)
    }

    /// The line for the "Press any key to continue" hint: the second line from
    /// the bottom of the overlay, when the overlay is more than 8 lines high.
    pub fn controls_area(overlay_area: Rect) -> (res: Option<Rect>)
        requires
            overlay_area.y + overlay_area.height <= u16::MAX,
        ensures
            overlay_area.height > 8 ==> res == Some(Rect {
                x: overlay_area.x,
                y: (overlay_area.y + overlay_area.height - 2) as u16,
                width: overlay_area.width,
                height: 1,
            }),
            overlay_area.height <= 8 ==> res is None,
    {
        if overlay_area.height > 8 {
            Some(Rect {
                x: overlay_area.x,
                y: overlay_area.y + overlay_area.height - 2,
                width: overlay_area.width,
                height: 1,
            })
        } else {
            None
        }
    }

    /// Calculate centered area for overlay.
    pub fn center_area(&self, area: Rect, width: u16, height: u16) -> (res: Rect)
        ensures
            res == spec_center_area(area, width, height),
    {
        center_area(area, width, height)
    }
}

/// Generic overlay renderer for different overlay types.
#[derive(Debug)]
pub struct OverlayRenderer;

/// The overlay drawn for an overlay type.
#[derive(Debug)]
pub enum OverlayPlan {
    Loading(LoadingOverlay),
    Error(ErrorOverlay),
    /// A box titled "Information" holding the message, 50 by 6 cells
    Info(String),
}

impl OverlayRenderer {
    /// The overlay drawn for an overlay type: a loading overlay with the message
    /// (or the default one), an error overlay titled "Error", or an information
    /// box, which a confirmation shows too (its options are not drawn).
    pub fn plan(overlay_type: &OverlayType) -> (res: OverlayPlan)
        ensures
            match overlay_type {
                OverlayType::Loading(Some(m)) => res matches OverlayPlan::Loading(o) && o.message@ == m@ && o.show_spinner,
                OverlayType::Loading(None) => res matches OverlayPlan::Loading(o) && o.message@ == "Loading..."@ && o.show_spinner,
                OverlayType::Error(m) => res matches OverlayPlan::Error(o) && o.title@ == "Error"@ && o.message@ == m@
                    && !o.show_details,
                OverlayType::Info(m) => res matches OverlayPlan::Info(t) && t@ == m@,
                OverlayType::Confirmation(m, _) => res matches OverlayPlan::Info(t) && t@ == m@,
            },
    {
        match overlay_type {
            OverlayType::Loading(Some(m)) => OverlayPlan::Loading(LoadingOverlay::new(m.as_str())),
            OverlayType::Loading(None) => OverlayPlan::Loading(LoadingOverlay::default()),
            OverlayType::Error(m) => OverlayPlan::Error(ErrorOverlay::with_message(m.as_str())),
            OverlayType::Info(m) => OverlayPlan::Info(m.clone()),
            OverlayType::Confirmation(m, _) => OverlayPlan::Info(m.clone()),
        }
    }

    /// The area of an information overlay: 50 by 6 cells in the middle of `area`.
    pub fn info_overlay_area(area: Rect) -> (res: Rect)
        ensures
            res == spec_center_area(area, 50, 6),
    {
        Self::center_area(area, 50, 6)
    }

    /// Calculate centered area for overlay.
    pub fn center_area(area: Rect, width: u16, height: u16) -> (res: Rect)
        ensures
            res == spec_center_area(area, width, height),
    {
        center_area(area, width, height)
    }
}

} // verus!
