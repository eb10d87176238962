//! The universal box: a bordered, titled panel for every non-chart element, with
//! text, list, paragraph, loading, error or empty content.
use vstd::prelude::*;
use crate::components::border_factory::{border_color, create_theme_border_style};
use crate::components::list_styling::{Alignment, ListItemBuilder};
use crate::layout::Rect;
use crate::style::{TextStyle, UnifiedTheme};

verus! {

broadcast use vstd::string::group_string_axioms;

/// The sides of a panel that carry a border.
#[derive(Debug, Clone, Copy, PartialEq, Eq, Structural)]
pub struct Borders {
    pub top: bool,
    pub right: bool,
    pub bottom: bool,
    pub left: bool,
}

/// A border on every side.
pub open spec fn all_sides() -> Borders {
    Borders { top: true, right: true, bottom: true, left: true }
}

impl Borders {
    /// A border on every side.
    pub fn all() -> (res: Borders)
        ensures
            res == all_sides(),
    {
        Borders { top: true, right: true, bottom: true, left: true }
    }
}

/// The selection and scroll offset of a list.
#[derive(Debug, Clone, Copy, PartialEq, Eq, Structural)]
pub struct ListState {
    pub selected: Option<usize>,
    pub offset: usize,
}

/// Text paragraph with individual styling.
#[derive(Debug, Clone)]
pub struct TextParagraph {
    pub text: String,
    pub style: Option<TextStyle>,
    pub alignment: Alignment,
}

/// Different types of content that can be rendered inside the box.
#[derive(Debug)]
pub enum BoxContent {
    /// Simple text content
    Text { text: String, alignment: Alignment, wrap: bool, style_override: Option<TextStyle> },
    /// List content with state management
    List { items: Vec<ListItemBuilder>, list_state: Option<ListState>, highlight_style: Option<TextStyle> },
    /// Multiple paragraphs with different styles
    MultiText { paragraphs: Vec<TextParagraph> },
    /// Content drawn by a function that the drawing code is handed with the box
    Custom,
    /// Loading state
    Loading { message: String },
    /// Error state
    Error { message: String },
    /// Empty state
    Empty { message: String, suggestion: Option<String> },
}

/// Universal box component for consistent rendering across all non-chart UI
/// elements.
#[derive(Debug)]
pub struct UniversalBox {
    pub title: Option<String>,
    pub borders: Borders,
    pub is_focused: bool,
    pub content_type: BoxContent,
    pub theme: UnifiedTheme,
}

/// `content` is text content with the given text, alignment, wrapping and style.
pub open spec fn is_text(content: BoxContent, text: Seq<char>, alignment: Alignment, wrap: bool, style: Option<TextStyle>) -> bool {
    content matches BoxContent::Text { text: t, alignment: a, wrap: w, style_override: s }
        && t@ == text && a == alignment && w == wrap && s == style
}

/// `res` is `old` with only its content replaced.
pub open spec fn content_set(old: UniversalBox, res: UniversalBox) -> bool {
    &&& res.title == old.title
    &&& res.borders == old.borders
    &&& res.is_focused == old.is_focused
    &&& res.theme == old.theme
}

/// The text shown for an empty box: the message, then the suggestion after a
/// blank line, when there is one.
pub open spec fn spec_empty_text(message: Seq<char>, suggestion: Option<Seq<char>>) -> Seq<char> {
    match suggestion {
        Some(s) => message + "\n\n"@ + s,
        None => message,
    }
}

impl UniversalBox {
    /// Create a new universal box with default settings: no title, all borders,
    /// not focused, and empty with the message "No content".
    pub fn new(theme: UnifiedTheme) -> (res: Self)
        ensures
            res.title is None,
            res.borders == all_sides(),
            !res.is_focused,
            res.theme == theme,
            res.content_type matches BoxContent::Empty { message, suggestion } && message@ == "No content"@
                && suggestion is None,
    {
        UniversalBox {
            title: None,
            borders: Borders::all(),
            is_focused: false,
            content_type: BoxContent::Empty { message: "No content".to_owned(), suggestion: None },
            theme,
        }
    }

    /// Set the title of the box.
    pub fn title(self, title: &str) -> (res: Self)
        ensures
            res.title matches Some(t) && t@ == title@,
            res.borders == self.borders,
            res.is_focused == self.is_focused,
            res.content_type == self.content_type,
            res.theme == self.theme,
    {
        UniversalBox { title: Some(title.to_owned()), ..self }
    }

    /// Set the borders of the box.
    pub fn borders(self, borders: Borders) -> (res: Self)
        ensures
            res == (UniversalBox { borders, ..self }),
    {
        UniversalBox { borders, ..self }
    }

    /// Set the focus state of the box.
    pub fn focused(self, focused: bool) -> (res: Self)
        ensures
            res == (UniversalBox { is_focused: focused, ..self }),
    {
        UniversalBox { is_focused: focused, ..self }
    }

    /// Set simple text content: left-aligned, not wrapped, default style.
    pub fn text(self, text: &str) -> (res: Self)
        ensures
            content_set(self, res),
            is_text(res.content_type, text@, Alignment::Left, false, None),
    {
        let content_type = BoxContent::Text {
            text: text.to_owned(),
            alignment: Alignment::Left,
            wrap: false,
            style_override: None,
        };
        UniversalBox { content_type, ..self }
    }

    /// Set text content with custom alignment.
    pub fn text_aligned(self, text: &str, alignment: Alignment) -> (res: Self)
        ensures
            content_set(self, res),
            is_text(res.content_type, text@, alignment, false, None),
    {
        let content_type = BoxContent::Text { text: text.to_owned(), alignment, wrap: false, style_override: None };
        UniversalBox { content_type, ..self }
    }

    /// Set wrapped text content, left-aligned.
    pub fn text_wrapped(self, text: &str) -> (res: Self)
        ensures
            content_set(self, res),
            is_text(res.content_type, text@, Alignment::Left, true, None),
    {
        let content_type = BoxContent::Text {
            text: text.to_owned(),
            alignment: Alignment::Left,
            wrap: true,
            style_override: None,
        };
        UniversalBox { content_type, ..self }
    }

    /// Set text content with custom style, left-aligned and not wrapped.
    pub fn text_styled(self, text: &str, style: TextStyle) -> (res: Self)
        ensures
            content_set(self, res),
            is_text(res.content_type, text@, Alignment::Left, false, Some(style)),
    {
        let content_type = BoxContent::Text {
            text: text.to_owned(),
            alignment: Alignment::Left,
            wrap: false,
            style_override: Some(style),
        };
        UniversalBox { content_type, ..self }
    }

    /// Set list content.
    pub fn list(self, items: Vec<ListItemBuilder>) -> (res: Self)
        ensures
            content_set(self, res),
            res.content_type == (BoxContent::List { items, list_state: None, highlight_style: None }),
    {
        UniversalBox { content_type: BoxContent::List { items, list_state: None, highlight_style: None }, ..self }
    }

    /// Set list content with state management.
    pub fn list_with_state(self, items: Vec<ListItemBuilder>, list_state: ListState) -> (res: Self)
        ensures
            content_set(self, res),
            res.content_type == (BoxContent::List { items, list_state: Some(list_state), highlight_style: None }),
    {
        UniversalBox {
            content_type: BoxContent::List { items, list_state: Some(list_state), highlight_style: None },
            ..self
        }
    }

    /// Set list content with custom highlight style.
    pub fn list_styled(self, items: Vec<ListItemBuilder>, highlight_style: TextStyle) -> (res: Self)
        ensures
            content_set(self, res),
            res.content_type == (BoxContent::List { items, list_state: None, highlight_style: Some(highlight_style) }),
    {
        UniversalBox {
            content_type: BoxContent::List { items, list_state: None, highlight_style: Some(highlight_style) },
            ..self
        }
    }

    /// Set multiple text paragraphs.
    pub fn multi_text(self, paragraphs: Vec<TextParagraph>) -> (res: Self)
        ensures
            content_set(self, res),
            res.content_type == (BoxContent::MultiText { paragraphs }),
    {
        UniversalBox { content_type: BoxContent::MultiText { paragraphs }, ..self }
    }

    /// Set loading state.
    pub fn loading(self, message: &str) -> (res: Self)
        ensures
            content_set(self, res),
            res.content_type matches BoxContent::Loading { message: m } && m@ == message@,
    {
        UniversalBox { content_type: BoxContent::Loading { message: message.to_owned() }, ..self }
    }

    /// Set error state.
    pub fn error(self, message: &str) -> (res: Self)
        ensures
            content_set(self, res),
            res.content_type matches BoxContent::Error { message: m } && m@ == message@,
    {
        UniversalBox { content_type: BoxContent::Error { message: message.to_owned() }, ..self }
    }

    /// Set empty state.
    pub fn empty(self, message: &str) -> (res: Self)
        ensures
            content_set(self, res),
            res.content_type matches BoxContent::Empty { message: m, suggestion } && m@ == message@
                && suggestion is None,
    {
        UniversalBox { content_type: BoxContent::Empty { message: message.to_owned(), suggestion: None }, ..self }
    }

    /// Set empty state with suggestion.
    pub fn empty_with_suggestion(self, message: &str, suggestion: &str) -> (res: Self)
        ensures
            content_set(self, res),
            res.content_type matches BoxContent::Empty { message: m, suggestion: Some(s) } && m@ == message@
                && s@ == suggestion@,
    {
        UniversalBox {
            content_type: BoxContent::Empty { message: message.to_owned(), suggestion: Some(suggestion.to_owned()) },
            ..self
        }
    }

    /// Set custom content, drawn by the function handed to the drawing code.
    pub fn custom(self) -> (res: Self)
        ensures
            content_set(self, res),
            res.content_type is Custom,
    {
        UniversalBox { content_type: BoxContent::Custom, ..self }
    }

    /// The style of the box's border: the theme's border colour for its focus
    /// state.
    pub fn border_style(&self) -> (res: TextStyle)
        ensures
            res == (TextStyle { fg: Some(border_color(self.theme, self.is_focused)), bg: None, bold: false }),
    {
        create_theme_border_style(&self.theme, self.is_focused)
    }

    /// Create a header box: the title over the application's name in the primary
    /// colour.
    pub fn header(title: &str, theme: UnifiedTheme) -> (res: Self)
        ensures
            res.title matches Some(t) && t@ == title@,
            res.borders == all_sides(),
            !res.is_focused,
            res.theme == theme,
            is_text(res.content_type, "AWS CloudWatch TUI"@, Alignment::Left, false, Some((TextStyle { fg: Some(theme.primary), bg: None, bold: false }))),
    {
        let style = TextStyle::fg_only(theme.primary);
        Self::new(theme).title(title).text_styled("AWS CloudWatch TUI", style)
    }

    /// Create an info box: the message in the info colour.
    pub fn info(title: &str, message: &str, theme: UnifiedTheme) -> (res: Self)
        ensures
            res.title matches Some(t) && t@ == title@,
            res.borders == all_sides(),
            !res.is_focused,
            res.theme == theme,
            is_text(res.content_type, message@, Alignment::Left, false, Some((TextStyle { fg: Some(theme.info), bg: None, bold: false }))),
    {
        let style = TextStyle::fg_only(theme.info);
        Self::new(theme).title(title).text_styled(message, style)
    }

    /// Create a success box: the message in the success colour.
    pub fn success(title: &str, message: &str, theme: UnifiedTheme) -> (res: Self)
        ensures
            res.title matches Some(t) && t@ == title@,
            res.borders == all_sides(),
            !res.is_focused,
            res.theme == theme,
            is_text(res.content_type, message@, Alignment::Left, false, Some((TextStyle { fg: Some(theme.success), bg: None, bold: false }))),
    {
        let style = TextStyle::fg_only(theme.success);
        Self::new(theme).title(title).text_styled(message, style)
    }

    /// Create a warning box: the message in the warning colour.
    pub fn warning(title: &str, message: &str, theme: UnifiedTheme) -> (res: Self)
        ensures
            res.title matches Some(t) && t@ == title@,
            res.borders == all_sides(),
            !res.is_focused,
            res.theme == theme,
            is_text(res.content_type, message@, Alignment::Left, false, Some((TextStyle { fg: Some(theme.warning), bg: None, bold: false }))),
    {
        let style = TextStyle::fg_only(theme.warning);
        Self::new(theme).title(title).text_styled(message, style)
    }

    /// Create an error box.
    pub fn error_box(title: &str, message: &str, theme: UnifiedTheme) -> (res: Self)
        ensures
            res.title matches Some(t) && t@ == title@,
            res.borders == all_sides(),
            !res.is_focused,
            res.theme == theme,
            res.content_type matches BoxContent::Error { message: m } && m@ == message@,
    {
        Self::new(theme).title(title).error(message)
    }

    /// Create a loading box.
    pub fn loading_box(title: &str, message: &str, theme: UnifiedTheme) -> (res: Self)
        ensures
            res.title matches Some(t) && t@ == title@,
            res.borders == all_sides(),
            !res.is_focused,
            res.theme == theme,
            res.content_type matches BoxContent::Loading { message: m } && m@ == message@,
    {
        Self::new(theme).title(title).loading(message)
    }
}

/// The text shown for an empty box.
pub fn empty_text(message: &str, suggestion: Option<&str>) -> (res: String)
    ensures
        res@ == spec_empty_text(message@, match suggestion {
            Some(s) => Some(s@),
            None => None,
        }),
{
    let mut res = message.to_owned();
    match suggestion {
        Some(s) => {
            res.append("\n\n");
            res.append(s);
        },
        None => {},
    }
    res
}

/// The area of paragraph `i` of `count` laid out in `inner`: each as wide as the
/// area and an equal share of its height (rounded down), one under the other.
pub open spec fn paragraph_area(inner: Rect, count: nat, i: nat) -> Rect {
    let h = inner.height / (count as u16);
    Rect { x: inner.x, y: (inner.y + i * h) as u16, width: inner.width, height: h }
}

/// The areas of `count` paragraphs laid out in `inner`.
pub fn paragraph_areas(inner: Rect, count: usize) -> (res: Vec<Rect>)
    requires
        0 < count <= u16::MAX,
        inner.y + inner.height <= u16::MAX,
    ensures
        res@.len() == count,
        forall|i: int| 0 <= i < count ==> #[trigger] res@[i] == paragraph_area(inner, count as nat, i as nat),
{
    let n = count as u16;
    let h = inner.height / n;
    let mut res: Vec<Rect> = Vec::new();
    let mut i: usize = 0;
    while i < count
        invariant
            0 < count <= u16::MAX,
            n == count,
            h == inner.height / n,
            inner.y + inner.height <= u16::MAX,
            0 <= i <= count,
            res@.len() == i,
            forall|j: int| 0 <= j < i ==> #[trigger] res@[j] == paragraph_area(inner, count as nat, j as nat),
        decreases count - i,
    {
        proof {
            assert(i * h <= inner.height) by (nonlinear_arith)
                requires i < n, h == inner.height / n, n > 0;
        }
        let y_offset = (i as u16) * h;
        res.push(Rect { x: inner.x, y: inner.y + y_offset, width: inner.width, height: h });
        i = i + 1;
    }
    res
}

/// The paragraphs of a box share its inner area: each starts where the one
/// above it ends, none starts above the area, and the last ends inside it.
pub proof fn lemma_paragraph_areas_stack(inner: Rect, count: nat, i: nat)
    requires
        0 < count <= u16::MAX,
        inner.y + inner.height <= u16::MAX,
        i < count,
    ensures
        paragraph_area(inner, count, i).y >= inner.y,
        paragraph_area(inner, count, i).y + paragraph_area(inner, count, i).height <= inner.y + inner.height,
        i + 1 < count ==> paragraph_area(inner, count, i).y + paragraph_area(inner, count, i).height
            == paragraph_area(inner, count, i + 1).y,
{
    let n = count as u16;
    let h = inner.height / n;
    assert(n as nat == count);
    assert((i + 1) * h <= inner.height) by (nonlinear_arith)
        requires i + 1 <= n, h == inner.height / n, n > 0;
    assert(i * h + h == (i + 1) * h) by (nonlinear_arith);
    assert(i * h <= inner.height) by (nonlinear_arith)
        requires (i + 1) * h <= inner.height, h >= 0;
}

} // verus!
