//! The list of services to choose from.
use vstd::prelude::*;
use crate::style::{TextStyle, UnifiedTheme};

verus! {

/// The style of entry `index` of the service list: the selected entry (the
/// first when nothing is selected) in the primary colour, bold when the list is
/// focused; the others in the secondary colour.
pub fn service_item_style(index: usize, selected: Option<usize>, is_focused: bool, theme: &UnifiedTheme) -> (res: TextStyle)
    ensures
        ({
            let sel = match selected {
                Some(s) => s,
                None => 0,
            };
            res == if index == sel {
                TextStyle { fg: Some(theme.primary), bg: None, bold: is_focused }
            } else {
                TextStyle { fg: Some(theme.secondary), bg: None, bold: false }
            }
        }),
{
    let sel = match selected {
        Some(s) => s,
        None => 0,
    };
    if index == sel && is_focused {
        TextStyle { fg: Some(theme.primary), bg: None, bold: true }
    } else if index == sel {
        TextStyle::fg_only(theme.primary)
    } else {
        TextStyle::fg_only(theme.secondary)
    }
}

/// The border of the service list: the primary colour when focused, else the
/// secondary colour.
pub fn service_list_border_style(is_focused: bool, theme: &UnifiedTheme) -> (res: TextStyle)
    ensures
        res == (TextStyle { fg: Some(if is_focused { theme.primary } else { theme.secondary }), bg: None, bold: false }),
{
    TextStyle::fg_only(if is_focused { theme.primary } else { theme.secondary })
}

} // verus!
