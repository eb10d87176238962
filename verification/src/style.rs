//! Terminal colours, as the terminal UI library names them.
use vstd::prelude::*;

verus! {

/// A terminal colour: the sixteen named colours, the terminal's default, an RGB
/// colour or an entry of the 256-colour palette.
#[derive(Debug, Clone, Copy, PartialEq, Eq, Structural)]
pub enum Color {
    Reset,
    Black,
    Red,
    Green,
    Yellow,
    Blue,
    Magenta,
    Cyan,
    Gray,
    DarkGray,
    LightRed,
    LightGreen,
    LightYellow,
    LightBlue,
    LightMagenta,
    LightCyan,
    White,
    Rgb(u8, u8, u8),
    Indexed(u8),
}

/// A colour that the active theme supplies, named by its role.
#[derive(Debug, Clone, Copy, PartialEq, Eq, Structural)]
pub enum ThemeColor {
    Primary,
    Background,
    Accent,
    Info,
    Success,
    Warning,
    Error,
    Muted,
    ChartPrimary,
    ChartSecondary,
    ChartAccent,
}

/// A text style: foreground and background colours, where set, and boldness.
#[derive(Debug, Clone, Copy, PartialEq, Eq, Structural)]
pub struct TextStyle {
    pub fg: Option<Color>,
    pub bg: Option<Color>,
    pub bold: bool,
}

impl TextStyle {
    /// A style that sets only the foreground colour.
    pub fn fg_only(color: Color) -> (res: TextStyle)
        ensures
            res == (TextStyle { fg: Some(color), bg: None, bold: false }),
    {
        TextStyle { fg: Some(color), bg: None, bold: false }
    }
}

/// The colours of the active theme. The palettes themselves are chosen by the
/// application; the library reads them by field.
#[derive(Debug, Clone, Copy, PartialEq, Eq, Structural)]
pub struct UnifiedTheme {
    pub primary: Color,
    pub secondary: Color,
    pub tertiary: Color,
    pub accent: Color,
    pub success: Color,
    pub warning: Color,
    pub error: Color,
    pub info: Color,
    pub muted: Color,
    pub background: Color,
    /// The background of a selected entry
    pub selected: Color,
    /// The text on a selected entry
    pub selected_text: Color,
    pub focused: Color,
    pub separator: Color,
    pub progress_bg: Color,
    pub progress_fg: Color,
    pub border: Color,
    pub border_focused: Color,
    pub chart_primary: Color,
    pub chart_secondary: Color,
    pub chart_accent: Color,
}

/// The theme's colour for a role.
pub open spec fn spec_role_color(theme: UnifiedTheme, role: ThemeColor) -> Color {
    match role {
        ThemeColor::Primary => theme.primary,
        ThemeColor::Background => theme.background,
        ThemeColor::Accent => theme.accent,
        ThemeColor::Info => theme.info,
        ThemeColor::Success => theme.success,
        ThemeColor::Warning => theme.warning,
        ThemeColor::Error => theme.error,
        ThemeColor::Muted => theme.muted,
        ThemeColor::ChartPrimary => theme.chart_primary,
        ThemeColor::ChartSecondary => theme.chart_secondary,
        ThemeColor::ChartAccent => theme.chart_accent,
    }
}

impl UnifiedTheme {
    /// The theme's colour for a role.
    pub fn role_color(&self, role: ThemeColor) -> (res: Color)
        ensures
            res == spec_role_color(*self, role),
    {
        match role {
            ThemeColor::Primary => self.primary,
            ThemeColor::Background => self.background,
            ThemeColor::Accent => self.accent,
            ThemeColor::Info => self.info,
            ThemeColor::Success => self.success,
            ThemeColor::Warning => self.warning,
            ThemeColor::Error => self.error,
            ThemeColor::Muted => self.muted,
            ThemeColor::ChartPrimary => self.chart_primary,
            ThemeColor::ChartSecondary => self.chart_secondary,
            ThemeColor::ChartAccent => self.chart_accent,
        }
    }
}

} // verus!
