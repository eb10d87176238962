//! Border styles that follow the active theme.
use vstd::prelude::*;
use crate::components::list_styling::BorderStatus;
use crate::style::{Color, TextStyle, UnifiedTheme};

verus! {

/// The theme's border colour: the focused one for a focused panel.
pub open spec fn border_color(theme: UnifiedTheme, is_focused: bool) -> Color {
    if is_focused {
        theme.border_focused
    } else {
        theme.border
    }
}

/// The theme's colour for a border of the given status.
pub open spec fn status_color(theme: UnifiedTheme, status: BorderStatus) -> Color {
    match status {
        BorderStatus::Normal => theme.border,
        BorderStatus::Focused => theme.border_focused,
        BorderStatus::Success => theme.success,
        BorderStatus::Warning => theme.warning,
        BorderStatus::Error => theme.error,
        BorderStatus::Info => theme.info,
    }
}

/// The border style the factory makes for a focus state.
pub open spec fn factory_border_style(theme: UnifiedTheme, is_focused: bool) -> TextStyle {
    TextStyle { fg: Some(border_color(theme, is_focused)), bg: None, bold: false }
}

/// Whether a border style passes the consistency check for a focus state.
pub open spec fn is_consistent_border(style: TextStyle, theme: UnifiedTheme, is_focused: bool) -> bool {
    style.fg == Some(border_color(theme, is_focused))
}

/// Every border style the factory makes passes the consistency check for the
/// same focus state.
pub proof fn lemma_factory_borders_consistent(theme: UnifiedTheme, is_focused: bool)
    ensures
        is_consistent_border(factory_border_style(theme, is_focused), theme, is_focused),
{
}

/// Create theme-consistent border style based on focus state.
pub fn create_theme_border_style(theme: &UnifiedTheme, is_focused: bool) -> (res: TextStyle)
    ensures
        res == factory_border_style(*theme, is_focused),
{
    TextStyle::fg_only(get_theme_border_color(theme, is_focused))
}

/// Create theme-consistent border style with custom focus color override: the
/// given colour when focused, the theme's border colour otherwise.
pub fn create_theme_border_style_with_focus_override(
    theme: &UnifiedTheme,
    is_focused: bool,
    focus_color: Color,
) -> (res: TextStyle)
    ensures
        res == (TextStyle { fg: Some(if is_focused { focus_color } else { theme.border }), bg: None, bold: false }),
{
    TextStyle::fg_only(if is_focused { focus_color } else { theme.border })
}

/// Whether a border style uses the theme's border colour for the focus state:
/// false when it sets no foreground colour.
pub fn validate_border_consistency(style: &TextStyle, theme: &UnifiedTheme, is_focused: bool) -> (res: bool)
    ensures
        res == is_consistent_border(*style, *theme, is_focused),
{
    let expected = get_theme_border_color(theme, is_focused);
    match style.fg {
        Some(color) => color == expected,
        None => false,
    }
}

/// Get the appropriate border color from theme based on focus state.
pub fn get_theme_border_color(theme: &UnifiedTheme, is_focused: bool) -> (res: Color)
    ensures
        res == border_color(*theme, is_focused),
{
    if is_focused {
        theme.border_focused
    } else {
        theme.border
    }
}

/// Create theme-consistent border style for status-specific borders.
pub fn create_theme_status_border_style(theme: &UnifiedTheme, status: BorderStatus) -> (res: TextStyle)
    ensures
        res == (TextStyle { fg: Some(status_color(*theme, status)), bg: None, bold: false }),
{
    let color = match status {
        BorderStatus::Normal => theme.border,
        BorderStatus::Focused => theme.border_focused,
        BorderStatus::Success => theme.success,
        BorderStatus::Warning => theme.warning,
        BorderStatus::Error => theme.error,
        BorderStatus::Info => theme.info,
    };
    TextStyle::fg_only(color)
}

} // verus!
