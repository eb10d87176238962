//! Content components of the standard page layout.
use vstd::prelude::*;
use crate::layout::{layout_split, spec_split, Constraint, Direction, Rect};
use super::overlays::{ErrorOverlay, LoadingOverlay};

verus! {

broadcast use vstd::string::group_string_axioms;

/// Simple content wrapper for basic text content.
#[derive(Debug)]
pub struct SimplePageContent {
    pub title: String,
    pub text: String,
}

impl SimplePageContent {
    /// Create new simple page content.
    pub fn new(title: &str, text: &str) -> (res: Self)
        ensures
            res.title@ == title@,
            res.text@ == text@,
    {
        SimplePageContent { title: title.to_owned(), text: text.to_owned() }
    }

    /// The content title.
    pub fn content_title(&self) -> (res: String)
        ensures
            res@ == self.title@,
    {
        self.title.clone()
    }
}

/// Empty content for pages that handle their own content rendering.
#[derive(Debug)]
pub struct EmptyPageContent;

impl EmptyPageContent {
    /// The content title: empty.
    pub fn content_title(&self) -> (res: String)
        ensures
            res@.len() == 0,
    {
        String::new()
    }
}

/// Standard page layout with content, footer and overlays.
#[derive(Debug)]
pub struct StandardPageLayout<C> {
    pub title: String,
    pub subtitle: Option<String>,
    pub content: C,
    pub footer_text: String,
    pub loading_overlay: Option<LoadingOverlay>,
    pub error_overlay: Option<ErrorOverlay>,
    pub show_borders: bool,
}

/// The optional view of an optional string.
pub open spec fn opt_string_view(s: Option<String>) -> Option<Seq<char>> {
    match s {
        Some(x) => Some(x@),
        None => None,
    }
}

impl<C> StandardPageLayout<C> {
    /// Create a new standard page layout: bordered, without subtitle or overlays.
    pub fn new(title: &str, content: C, footer_text: &str) -> (res: Self)
        ensures
            res.title@ == title@,
            res.subtitle is None,
            res.content == content,
            res.footer_text@ == footer_text@,
            res.loading_overlay is None,
            res.error_overlay is None,
            res.show_borders,
    {
        StandardPageLayout {
            title: title.to_owned(),
            subtitle: None,
            content,
            footer_text: footer_text.to_owned(),
            loading_overlay: None,
            error_overlay: None,
            show_borders: true,
        }
    }

    /// Set the subtitle.
    pub fn with_subtitle(self, subtitle: &str) -> (res: Self)
        ensures
            opt_string_view(res.subtitle) == Some(subtitle@),
            res == (StandardPageLayout { subtitle: res.subtitle, ..self }),
    {
        StandardPageLayout { subtitle: Some(subtitle.to_owned()), ..self }
    }

    /// Set whether to show borders.
    pub fn with_borders(self, show_borders: bool) -> (res: Self)
        ensures
            res == (StandardPageLayout { show_borders, ..self }),
    {
        StandardPageLayout { show_borders, ..self }
    }

    /// Set loading overlay.
    pub fn with_loading(self, message: &str) -> (res: Self)
        ensures
            res.loading_overlay matches Some(o) && o.message@ == message@ && o.show_spinner,
            res == (StandardPageLayout { loading_overlay: res.loading_overlay, ..self }),
    {
        StandardPageLayout { loading_overlay: Some(LoadingOverlay::new(message)), ..self }
    }

    /// Set error overlay.
    pub fn with_error(self, title: &str, message: &str) -> (res: Self)
        ensures
            res.error_overlay matches Some(o) && o.title@ == title@ && o.message@ == message@ && !o.show_details,
            res == (StandardPageLayout { error_overlay: res.error_overlay, ..self }),
    {
        StandardPageLayout { error_overlay: Some(ErrorOverlay::new(title, message)), ..self }
    }

    /// Update the title.
    pub fn set_title(&mut self, title: &str)
        ensures
            final(self).title@ == title@,
            *final(self) == (StandardPageLayout { title: final(self).title, ..*old(self) }),
    {
        self.title = title.to_owned();
    }

    /// Update the subtitle.
    pub fn set_subtitle(&mut self, subtitle: Option<String>)
        ensures
            *final(self) == (StandardPageLayout { subtitle, ..*old(self) }),
    {
        self.subtitle = subtitle;
    }

    /// Update the footer text.
    pub fn set_footer_text(&mut self, footer_text: &str)
        ensures
            final(self).footer_text@ == footer_text@,
            *final(self) == (StandardPageLayout { footer_text: final(self).footer_text, ..*old(self) }),
    {
        self.footer_text = footer_text.to_owned();
    }

    /// Show loading overlay.
    pub fn show_loading(&mut self, message: &str)
        ensures
            final(self).loading_overlay matches Some(o) && o.message@ == message@ && o.show_spinner,
            *final(self) == (StandardPageLayout { loading_overlay: final(self).loading_overlay, ..*old(self) }),
    {
        self.loading_overlay = Some(LoadingOverlay::new(message));
    }

    /// Hide loading overlay.
    pub fn hide_loading(&mut self)
        ensures
            *final(self) == (StandardPageLayout { loading_overlay: None, ..*old(self) }),
    {
        self.loading_overlay = None;
    }

    /// Show error overlay.
    pub fn show_error(&mut self, title: &str, message: &str)
        ensures
            final(self).error_overlay matches Some(o) && o.title@ == title@ && o.message@ == message@ && !o.show_details,
            *final(self) == (StandardPageLayout { error_overlay: final(self).error_overlay, ..*old(self) }),
    {
        self.error_overlay = Some(ErrorOverlay::new(title, message));
    }

    /// Hide error overlay.
    pub fn hide_error(&mut self)
        ensures
            *final(self) == (StandardPageLayout { error_overlay: None, ..*old(self) }),
    {
        self.error_overlay = None;
    }
}

/// The content area and the one-line footer area of a page.
pub fn content_and_footer_areas(area: Rect) -> (res: (Rect, Rect))
    ensures
        res.0 == spec_split(Direction::Vertical, seq![Constraint::Min(0), Constraint::Length(1)], area)[0],
        res.1 == spec_split(Direction::Vertical, seq![Constraint::Min(0), Constraint::Length(1)], area)[1],
{
    let c = vec![Constraint::Min(0), Constraint::Length(1)];
    let parts = layout_split(Direction::Vertical, &c, area);
    assert(c@ =~= seq![Constraint::Min(0), Constraint::Length(1)]);
    (parts[0], parts[1])
}

} // verus!
