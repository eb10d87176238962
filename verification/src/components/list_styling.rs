//! Text and classification rules of the list panels: status and type badges,
//! status messages, list text padding, and the status of a listed instance.
use vstd::prelude::*;
use vstd::string::*;
use vstd::utf8::*;
use crate::style::{Color, TextStyle, UnifiedTheme};
use crate::text::{repeat_char, repeat_str, spec_to_lowercase, spec_to_uppercase, str_eq, to_lowercase, to_uppercase};

verus! {

broadcast use vstd::string::group_string_axioms;

/// The colours of a list panel.
#[derive(Debug, Clone, Copy, PartialEq, Eq, Structural)]
pub struct ListColors {
    pub primary: Color,
    pub secondary: Color,
    pub accent: Color,
    pub success: Color,
    pub warning: Color,
    pub error: Color,
    pub info: Color,
    pub muted: Color,
    pub background: Color,
    pub selected: Color,
    pub focused: Color,
    pub separator: Color,
    pub progress_bg: Color,
    pub progress_fg: Color,
    pub highlight: Color,
    pub dim: Color,
    pub border: Color,
}

impl ListColors {
    /// The list colours of a theme: its colours by role, the selected entry's text
    /// from `selected_text`, its background (`highlight`) from `selected`, and the
    /// dim colour from `tertiary`.
    pub fn from_theme(theme: &UnifiedTheme) -> (res: Self)
        ensures
            res == (ListColors {
                primary: theme.primary,
                secondary: theme.secondary,
                accent: theme.accent,
                success: theme.success,
                warning: theme.warning,
                error: theme.error,
                info: theme.info,
                muted: theme.muted,
                background: theme.background,
                selected: theme.selected_text,
                focused: theme.focused,
                separator: theme.separator,
                progress_bg: theme.progress_bg,
                progress_fg: theme.progress_fg,
                highlight: theme.selected,
                dim: theme.tertiary,
                border: theme.border,
            }),
    {
        ListColors {
            primary: theme.primary,
            secondary: theme.secondary,
            accent: theme.accent,
            success: theme.success,
            warning: theme.warning,
            error: theme.error,
            info: theme.info,
            muted: theme.muted,
            background: theme.background,
            selected: theme.selected_text,
            focused: theme.focused,
            separator: theme.separator,
            progress_bg: theme.progress_bg,
            progress_fg: theme.progress_fg,
            highlight: theme.selected,
            dim: theme.tertiary,
            border: theme.border,
        }
    }
}

/// A consistent header style for list panels: bold, in the focus colour when
/// focused, else the accent colour.
pub fn create_header_style(is_focused: bool, colors: &ListColors) -> (res: TextStyle)
    ensures
        res == (TextStyle { fg: Some(if is_focused { colors.focused } else { colors.accent }), bg: None, bold: true }),
{
    let base = if is_focused { colors.focused } else { colors.accent };
    TextStyle { fg: Some(base), bg: None, bold: true }
}

/// The highlight of a list selection: bold selected-text colour on the highlight
/// background.
pub fn create_highlight_style(colors: &ListColors) -> (res: TextStyle)
    ensures
        res == (TextStyle { fg: Some(colors.selected), bg: Some(colors.highlight), bold: true }),
{
    TextStyle { fg: Some(colors.selected), bg: Some(colors.highlight), bold: true }
}

/// A panel border: the focus colour when focused, else the border colour.
pub fn create_border_style(is_focused: bool, colors: &ListColors) -> (res: TextStyle)
    ensures
        res == (TextStyle { fg: Some(if is_focused { colors.focused } else { colors.border }), bg: None, bold: false }),
{
    TextStyle::fg_only(if is_focused { colors.focused } else { colors.border })
}

/// Status indicators using descriptive text instead of symbols.
#[derive(Debug, Clone, Copy, PartialEq, Eq, Structural)]
pub enum StatusIndicator {
    Available,
    Stopped,
    Starting,
    Stopping,
    Error,
    Warning,
    Info,
    Unknown,
    /// No status is shown
    NoStatus,
}

/// The badge text of a status.
pub open spec fn status_text(s: StatusIndicator) -> Seq<char> {
    match s {
        StatusIndicator::Available => "ONLINE"@,
        StatusIndicator::Stopped => "STOPPED"@,
        StatusIndicator::Starting => "STARTING"@,
        StatusIndicator::Stopping => "STOPPING"@,
        StatusIndicator::Error => "ERROR"@,
        StatusIndicator::Warning => "WARNING"@,
        StatusIndicator::Info => "INFO"@,
        StatusIndicator::Unknown => "UNKNOWN"@,
        StatusIndicator::NoStatus => ""@,
    }
}

/// The colour of a status in a list panel.
pub open spec fn status_color(s: StatusIndicator, colors: ListColors) -> Color {
    match s {
        StatusIndicator::Available => colors.success,
        StatusIndicator::Stopped => colors.error,
        StatusIndicator::Starting | StatusIndicator::Stopping => colors.warning,
        StatusIndicator::Error => colors.error,
        StatusIndicator::Warning => colors.warning,
        StatusIndicator::Info => colors.info,
        StatusIndicator::Unknown => colors.muted,
        StatusIndicator::NoStatus => colors.primary,
    }
}

impl StatusIndicator {
    pub fn to_text(&self) -> (res: &'static str)
        ensures
            res@ == status_text(*self),
    {
        match self {
            StatusIndicator::Available => "ONLINE",
            StatusIndicator::Stopped => "STOPPED",
            StatusIndicator::Starting => "STARTING",
            StatusIndicator::Stopping => "STOPPING",
            StatusIndicator::Error => "ERROR",
            StatusIndicator::Warning => "WARNING",
            StatusIndicator::Info => "INFO",
            StatusIndicator::Unknown => "UNKNOWN",
            StatusIndicator::NoStatus => "",
        }
    }

    pub fn color(&self, colors: &ListColors) -> (res: Color)
        ensures
            res == status_color(*self, *colors),
    {
        match self {
            StatusIndicator::Available => colors.success,
            StatusIndicator::Stopped => colors.error,
            StatusIndicator::Starting | StatusIndicator::Stopping => colors.warning,
            StatusIndicator::Error => colors.error,
            StatusIndicator::Warning => colors.warning,
            StatusIndicator::Info => colors.info,
            StatusIndicator::Unknown => colors.muted,
            StatusIndicator::NoStatus => colors.primary,
        }
    }
}

/// Type indicators for different service types.
#[derive(Debug, Clone, PartialEq, Eq)]
pub enum TypeIndicator {
    Fifo,
    Standard,
    Database,
    Queue,
    Service,
    Other(String),
}

impl TypeIndicator {
    /// The badge text of the type: the fixed names, or the other type's text in
    /// upper case.
    pub fn to_text(&self) -> (res: String)
        ensures
            res@ == match *self {
                TypeIndicator::Fifo => "FIFO"@,
                TypeIndicator::Standard => "STANDARD"@,
                TypeIndicator::Database => "DATABASE"@,
                TypeIndicator::Queue => "QUEUE"@,
                TypeIndicator::Service => "SERVICE"@,
                TypeIndicator::Other(text) => spec_to_uppercase(text@),
            },
    {
        match self {
            TypeIndicator::Fifo => "FIFO".to_owned(),
            TypeIndicator::Standard => "STANDARD".to_owned(),
            TypeIndicator::Database => "DATABASE".to_owned(),
            TypeIndicator::Queue => "QUEUE".to_owned(),
            TypeIndicator::Service => "SERVICE".to_owned(),
            TypeIndicator::Other(text) => to_uppercase(text.as_str()),
        }
    }

    pub fn color(&self, colors: &ListColors) -> (res: Color)
        ensures
            res == match *self {
                TypeIndicator::Fifo => colors.info,
                TypeIndicator::Standard => colors.accent,
                TypeIndicator::Database => colors.success,
                TypeIndicator::Queue => colors.warning,
                TypeIndicator::Service => colors.primary,
                TypeIndicator::Other(_) => colors.muted,
            },
    {
        match self {
            TypeIndicator::Fifo => colors.info,
            TypeIndicator::Standard => colors.accent,
            TypeIndicator::Database => colors.success,
            TypeIndicator::Queue => colors.warning,
            TypeIndicator::Service => colors.primary,
            TypeIndicator::Other(_) => colors.muted,
        }
    }
}

/// How the lines of a list item are arranged.
#[derive(Debug, Clone, Copy, PartialEq, Eq, Structural)]
pub enum LayoutStyle {
    /// Standard single-line layout
    Standard,
    /// Multi-line layout with enhanced spacing
    Enhanced,
    /// Compact layout for dense information
    Compact,
    /// Card-like layout with visual grouping
    Card,
}

/// Where a piece of text sits on its line.
#[derive(Debug, Clone, Copy, PartialEq, Eq, Structural)]
pub enum Alignment {
    Left,
    Center,
    Right,
}

/// The kinds of badges.
#[derive(Debug, Clone, Copy, PartialEq, Eq, Structural)]
pub enum BadgeType {
    Success,
    Warning,
    Error,
    Info,
    Primary,
}

/// Border status types for status-specific styling.
#[derive(Debug, Clone, Copy, PartialEq, Eq, Structural)]
pub enum BorderStatus {
    Normal,
    Focused,
    Success,
    Warning,
    Error,
    Info,
}

/// `a - b`, or 0 when `b` is larger.
pub open spec fn saturating_sub(a: nat, b: nat) -> nat {
    if a >= b {
        (a - b) as nat
    } else {
        0
    }
}

/// List text laid out for a column: without a width, indented by two spaces; with
/// a width, text whose UTF-8 encoding is longer than the width is cut to its first
/// `width - 3` bytes followed by "...", and shorter text is padded with spaces to
/// `width` characters.
pub open spec fn spec_format_list_text(s: Seq<char>, width: Option<usize>) -> Seq<char> {
    match width {
        Some(w) => {
            let bytes = encode_utf8(s);
            if bytes.len() > w {
                decode_utf8(bytes.subrange(0, saturating_sub(w as nat, 3) as int)) + "..."@
            } else if s.len() < w {
                s + repeat_char(' ', (w - s.len()) as nat)
            } else {
                s
            }
        },
        None => "  "@ + s,
    }
}

/// Format text with consistent padding and alignment. The cut of an over-long
/// text must fall on a character boundary.
pub fn format_list_text(text: &str, width: Option<usize>) -> (res: String)
    requires
        width is Some && text.spec_bytes().len() > width->0 ==> is_char_boundary(
            text.spec_bytes(),
            saturating_sub(width->0 as nat, 3) as int,
        ),
    ensures
        res@ == spec_format_list_text(text@, width),
{
    proof {
        reveal_strlit("...");
        reveal_strlit(" ");
        reveal_strlit("  ");
    }
    match width {
        Some(w) => {
            let byte_len = text.as_bytes().len();
            assert(text.spec_bytes() == encode_utf8(text@));
            if byte_len > w {
                let cut = if w >= 3 { w - 3 } else { 0 };
                let (prefix, _rest) = text.split_at(cut);
                proof {
                    encode_utf8_decode_utf8(prefix@);
                    assert(prefix.spec_bytes() == encode_utf8(prefix@));
                }
                let mut res = prefix.to_owned();
                res.append("...");
                res
            } else {
                let n = text.unicode_len();
                let mut res = text.to_owned();
                if n < w {
                    let pad = repeat_str(" ", w - n);
                    res.append(pad.as_str());
                }
                res
            }
        },
        None => {
            let mut res = "  ".to_owned();
            res.append(text);
            res
        },
    }
}

/// Create consistent loading/empty state messages: the status badge, then the
/// message.
pub fn create_status_message(message: &str, message_type: StatusIndicator, _colors: &ListColors) -> (res: String)
    ensures
        res@ == "["@ + status_text(message_type) + "] "@ + message@,
{
    let mut res = "[".to_owned();
    res.append(message_type.to_text());
    res.append("] ");
    res.append(message);
    res
}

/// The status shown for a listed instance, from its lower-cased status text.
pub open spec fn instance_status(lower: Seq<char>) -> StatusIndicator {
    if lower == "available"@ || lower == "running"@ || lower == "online"@ {
        StatusIndicator::Available
    } else if lower == "stopped"@ || lower == "offline"@ {
        StatusIndicator::Stopped
    } else if lower == "starting"@ {
        StatusIndicator::Starting
    } else if lower == "stopping"@ {
        StatusIndicator::Stopping
    } else if lower == "error"@ || lower == "failed"@ {
        StatusIndicator::Error
    } else {
        StatusIndicator::Unknown
    }
}

/// The status shown for a listed instance, from its lower-cased status text.
pub fn status_for_lowercase(lower: &str) -> (res: StatusIndicator)
    ensures
        res == instance_status(lower@),
{
    if str_eq(lower, "available") || str_eq(lower, "running") || str_eq(lower, "online") {
        StatusIndicator::Available
    } else if str_eq(lower, "stopped") || str_eq(lower, "offline") {
        StatusIndicator::Stopped
    } else if str_eq(lower, "starting") {
        StatusIndicator::Starting
    } else if str_eq(lower, "stopping") {
        StatusIndicator::Stopping
    } else if str_eq(lower, "error") || str_eq(lower, "failed") {
        StatusIndicator::Error
    } else {
        StatusIndicator::Unknown
    }
}

/// The status shown for a listed instance: its status text, compared without
/// regard to case.
pub fn instance_status_indicator(status: &str) -> (res: StatusIndicator)
    ensures
        res == instance_status(spec_to_lowercase(status@)),
{
    let lower = to_lowercase(status);
    status_for_lowercase(lower.as_str())
}

/// The description of a listed instance: its class and engine joined by " - ",
/// whichever of them is known, or "Instance".
pub open spec fn instance_description_text(instance_type: Option<Seq<char>>, engine: Option<Seq<char>>) -> Seq<char> {
    match (instance_type, engine) {
        (Some(t), Some(e)) => t + " - "@ + e,
        (Some(t), None) => t,
        (None, Some(e)) => e,
        (None, None) => "Instance"@,
    }
}

/// The view of an optional string.
pub open spec fn opt_view(s: Option<&str>) -> Option<Seq<char>> {
    match s {
        Some(x) => Some(x@),
        None => None,
    }
}

/// The description of a listed instance.
pub fn instance_description(instance_type: Option<&str>, engine_or_type: Option<&str>) -> (res: String)
    ensures
        res@ == instance_description_text(opt_view(instance_type), opt_view(engine_or_type)),
{
    match (instance_type, engine_or_type) {
        (Some(t), Some(e)) => {
            let mut res = t.to_owned();
            res.append(" - ");
            res.append(e);
            res
        },
        (Some(t), None) => t.to_owned(),
        (None, Some(e)) => e.to_owned(),
        (None, None) => "Instance".to_owned(),
    }
}

} // verus!

verus! {

/// A run of text with its colour (none: the default style) and weight.
#[derive(Debug, Clone)]
pub struct StyledSpan {
    pub text: String,
    pub color: Option<Color>,
    pub bold: bool,
}

/// The view of a span: its characters, colour and weight.
pub type SpanView = (Seq<char>, Option<Color>, bool);

/// The views of the spans of a line.
pub open spec fn span_views(spans: Seq<StyledSpan>) -> Seq<SpanView> {
    spans.map_values(|s: StyledSpan| (s.text@, s.color, s.bold))
}

/// The views of the lines of an item.
pub open spec fn line_views(lines: Seq<Vec<StyledSpan>>) -> Seq<Seq<SpanView>> {
    lines.map_values(|l: Vec<StyledSpan>| span_views(l@))
}

/// A piece of content of a list item.
#[derive(Debug, Clone)]
pub struct ContentPart {
    pub text: String,
    pub color: Color,
    pub bold: bool,
    pub alignment: Alignment,
}

/// The progress shown under a list item.
#[derive(Debug, Clone, Copy, PartialEq, Eq, Structural)]
pub struct ProgressInfo {
    pub current: usize,
    pub total: usize,
    pub show_percentage: bool,
    pub bar_width: usize,
}

/// How the whole item is emphasised.
#[derive(Debug, Clone, Copy, PartialEq, Eq, Structural)]
pub enum ItemEmphasis {
    /// Selected: selection colour, bold and underlined
    Selected(Color),
    /// Focused: focus colour, bold
    Focused(Color),
    /// No emphasis
    Plain,
}

/// Enhanced list item builder for consistent styling.
#[derive(Debug, Clone)]
pub struct ListItemBuilder {
    pub colors: ListColors,
    pub content_parts: Vec<ContentPart>,
    pub is_selected: bool,
    pub is_focused: bool,
    pub progress_info: Option<ProgressInfo>,
    pub layout_style: LayoutStyle,
    pub width: Option<usize>,
    pub show_separator: bool,
}

/// The view of a content part: its text, colour, weight and alignment.
pub type PartView = (Seq<char>, Color, bool, Alignment);

/// The views of the content parts.
pub open spec fn part_views(parts: Seq<ContentPart>) -> Seq<PartView> {
    parts.map_values(|p: ContentPart| (p.text@, p.color, p.bold, p.alignment))
}

/// The spans of the parts with the given alignment, in order.
pub open spec fn aligned_spans(parts: Seq<PartView>, a: Alignment) -> Seq<SpanView>
    decreases parts.len(),
{
    if parts.len() == 0 {
        Seq::empty()
    } else {
        let rest = aligned_spans(parts.drop_last(), a);
        let p = parts.last();
        if p.3 == a {
            rest.push((p.0, Some(p.1), p.2))
        } else {
            rest
        }
    }
}

/// The number of UTF-8 bytes of the texts of spans.
pub open spec fn text_bytes(spans: Seq<SpanView>) -> nat
    decreases spans.len(),
{
    if spans.len() == 0 {
        0
    } else {
        text_bytes(spans.drop_last()) + encode_utf8(spans.last().0).len()
    }
}

/// A span of `n` spaces in the default style.
pub open spec fn blank(n: nat) -> SpanView {
    (repeat_char(' ', n), None, false)
}

/// The main line of an item `width` cells wide: the left-aligned parts, then the
/// centred parts after half of the room they leave, then the right-aligned parts
/// after the room left over. Lengths are counted in UTF-8 bytes.
pub open spec fn main_line(parts: Seq<PartView>, width: nat) -> Seq<SpanView> {
    let left = aligned_spans(parts, Alignment::Left);
    let center = aligned_spans(parts, Alignment::Center);
    let right = aligned_spans(parts, Alignment::Right);
    let (l, c, r) = (text_bytes(left), text_bytes(center), text_bytes(right));
    let center_pad = saturating_sub(saturating_sub(width, l + r), c) / 2;
    let with_center = if center.len() == 0 {
        left
    } else if center_pad > 0 {
        left.push(blank(center_pad)) + center
    } else {
        left + center
    };
    let used = l + c + if center.len() == 0 { 0 } else { c };
    let right_pad = saturating_sub(width, used + r);
    if right.len() == 0 {
        with_center
    } else if right_pad > 0 {
        with_center.push(blank(right_pad)) + right
    } else {
        with_center + right
    }
}

/// The line under a card: a space, then dashes to the width less two.
pub open spec fn separator_line(width: nat, sep: Color) -> Seq<SpanView> {
    seq![(" "@, None, false), (repeat_char('-', saturating_sub(width, 2)), Some(sep), false)]
}

/// A line holding one space.
pub open spec fn space_line() -> Seq<SpanView> {
    seq![(" "@, None, false)]
}

/// The lines with a line of one space between consecutive ones.
pub open spec fn spaced_lines(lines: Seq<Seq<SpanView>>) -> Seq<Seq<SpanView>>
    decreases lines.len(),
{
    if lines.len() <= 1 {
        lines
    } else {
        spaced_lines(lines.drop_last()).push(space_line()).push(lines.last())
    }
}

/// The spans of the lines joined into one line, a space between lines.
pub open spec fn joined_line(lines: Seq<Seq<SpanView>>) -> Seq<SpanView>
    decreases lines.len(),
{
    if lines.len() == 0 {
        Seq::empty()
    } else if lines.len() == 1 {
        lines[0]
    } else {
        joined_line(lines.drop_last()).push((" "@, None, false)) + lines.last()
    }
}

/// The top and bottom border of a card.
pub open spec fn card_border(width: nat, sep: Color) -> Seq<SpanView> {
    seq![(" "@, None, false), ("+"@ + repeat_char('-', saturating_sub(width, 4)) + "+"@, Some(sep), false)]
}

/// A line of a card, between side borders.
pub open spec fn card_line(line: Seq<SpanView>, sep: Color) -> Seq<SpanView> {
    seq![(" | "@, Some(sep), false)] + line + seq![(" |"@, Some(sep), false)]
}

/// The lines of a card: a border, each line between side borders, a border.
pub open spec fn card_lines(lines: Seq<Seq<SpanView>>, width: nat, sep: Color) -> Seq<Seq<SpanView>> {
    seq![card_border(width, sep)] + Seq::new(lines.len(), |i: int| card_line(lines[i], sep)) + seq![card_border(width, sep)]
}

/// The lines as laid out in a style.
pub open spec fn styled_lines(style: LayoutStyle, lines: Seq<Seq<SpanView>>, width: nat, sep: Color) -> Seq<Seq<SpanView>> {
    match style {
        LayoutStyle::Standard => lines,
        LayoutStyle::Enhanced => spaced_lines(lines),
        LayoutStyle::Compact => if lines.len() <= 1 {
            lines
        } else {
            seq![joined_line(lines)]
        },
        LayoutStyle::Card => card_lines(lines, width, sep),
    }
}

/// The width of an item: as set, or 80.
pub open spec fn item_width(width: Option<usize>) -> nat {
    match width {
        Some(w) => w as nat,
        None => 80,
    }
}

/// The number of UTF-8 bytes of a text.
fn byte_len(s: &String) -> (res: usize)
    ensures
        res == encode_utf8(s@).len(),
{
    let t = s.as_str();
    let b = t.as_bytes();
    proof {
        assert(t.spec_bytes() == encode_utf8(t@));
    }
    b.len()
}

/// A span of `n` spaces in the default style.
fn blank_span(n: usize) -> (res: StyledSpan)
    ensures
        (res.text@, res.color, res.bold) == blank(n as nat),
{
    proof {
        reveal_strlit(" ");
    }
    StyledSpan { text: repeat_str(" ", n), color: None, bold: false }
}

/// Appends the spans of `extra` to `line`.
fn append_spans(line: &mut Vec<StyledSpan>, extra: Vec<StyledSpan>)
    ensures
        span_views(final(line)@) == span_views(old(line)@) + span_views(extra@),
{
    let ghost start = span_views(line@);
    let ghost items = span_views(extra@);
    let mut i: usize = 0;
    let n = extra.len();
    while i < n
        invariant
            0 <= i <= n,
            n == extra@.len(),
            span_views(extra@) == items,
            span_views(line@) == start + items.take(i as int),
        decreases n - i,
    {
        let s = extra[i].clone_span();
        let ghost prev = line@;
        line.push(s);
        proof {
            assert(line@ == prev.push(s));
            assert(span_views(line@) =~= span_views(prev).push((s.text@, s.color, s.bold)));
            assert(items[i as int] == (extra@[i as int].text@, extra@[i as int].color, extra@[i as int].bold));
            assert(items.take(i + 1) =~= items.take(i as int).push(items[i as int]));
            assert(span_views(line@) =~= start + items.take(i + 1));
        }
        i = i + 1;
    }
    proof {
        assert(items.take(n as int) =~= items);
    }
}

impl StyledSpan {
    /// A copy of the span.
    pub fn clone_span(&self) -> (res: StyledSpan)
        ensures
            res.text@ == self.text@,
            res.color == self.color,
            res.bold == self.bold,
    {
        StyledSpan { text: self.text.clone(), color: self.color, bold: self.bold }
    }
}

impl ListItemBuilder {
    /// An empty builder with the given colours: standard layout, neither selected
    /// nor focused, no progress, no width, no separator.
    pub fn new(colors: ListColors) -> (res: Self)
        ensures
            res.colors == colors,
            res.content_parts@.len() == 0,
            !res.is_selected,
            !res.is_focused,
            res.progress_info is None,
            res.layout_style == LayoutStyle::Standard,
            res.width is None,
            !res.show_separator,
    {
        ListItemBuilder {
            colors,
            content_parts: Vec::new(),
            is_selected: false,
            is_focused: false,
            progress_info: None,
            layout_style: LayoutStyle::Standard,
            width: None,
            show_separator: false,
        }
    }

    /// `new` is `old` with the part `p` added at the end.
    pub open spec fn added(old: ListItemBuilder, new: ListItemBuilder, p: PartView) -> bool {
        &&& part_views(new.content_parts@) == part_views(old.content_parts@).push(p)
        &&& new == (ListItemBuilder { content_parts: new.content_parts, ..old })
    }

    fn push_part(self, text: String, color: Color, bold: bool, alignment: Alignment) -> (res: Self)
        ensures
            Self::added(self, res, (text@, color, bold, alignment)),
    {
        let mut parts = self.content_parts;
        let ghost before = part_views(parts@);
        parts.push(ContentPart { text, color, bold, alignment });
        proof {
            assert(part_views(parts@) =~= before.push((text@, color, bold, alignment)));
        }
        ListItemBuilder { content_parts: parts, ..self }
    }

    pub fn with_colors(self, colors: ListColors) -> (res: Self)
        ensures
            res == (ListItemBuilder { colors, ..self }),
    {
        ListItemBuilder { colors, ..self }
    }

    pub fn selected(self, is_selected: bool) -> (res: Self)
        ensures
            res == (ListItemBuilder { is_selected, ..self }),
    {
        ListItemBuilder { is_selected, ..self }
    }

    pub fn focused(self, is_focused: bool) -> (res: Self)
        ensures
            res == (ListItemBuilder { is_focused, ..self }),
    {
        ListItemBuilder { is_focused, ..self }
    }

    /// Adds the status badge "[STATUS]" in the status colour, bold; nothing for
    /// no status.
    pub fn add_status_indicator(self, status: StatusIndicator) -> (res: Self)
        ensures
            status == StatusIndicator::NoStatus ==> res == self,
            status != StatusIndicator::NoStatus ==> Self::added(
                self,
                res,
                ("["@ + status_text(status) + "]"@, status_color(status, self.colors), true, Alignment::Left),
            ),
    {
        if status == StatusIndicator::NoStatus {
            return self;
        }
        let mut text = "[".to_owned();
        text.append(status.to_text());
        text.append("]");
        let color = status.color(&self.colors);
        self.push_part(text, color, true, Alignment::Left)
    }

    /// Adds the type badge "(TYPE)" in the type colour, bold.
    pub fn add_type_indicator(self, type_indicator: TypeIndicator) -> (res: Self)
        ensures
            exists|t: Seq<char>| {
                &&& Self::added(self, res, ("("@ + t + ")"@, type_color(type_indicator, self.colors), true, Alignment::Left))
                &&& t == match type_indicator {
                    TypeIndicator::Fifo => "FIFO"@,
                    TypeIndicator::Standard => "STANDARD"@,
                    TypeIndicator::Database => "DATABASE"@,
                    TypeIndicator::Queue => "QUEUE"@,
                    TypeIndicator::Service => "SERVICE"@,
                    TypeIndicator::Other(text) => spec_to_uppercase(text@),
                }
            },
    {
        let inner = type_indicator.to_text();
        let mut text = "(".to_owned();
        text.append(inner.as_str());
        text.append(")");
        let color = type_indicator.color(&self.colors);
        self.push_part(text, color, true, Alignment::Left)
    }

    pub fn add_primary_text(self, text: String) -> (res: Self)
        ensures
            Self::added(self, res, (text@, self.colors.primary, true, Alignment::Left)),
    {
        let c = self.colors.primary;
        self.push_part(text, c, true, Alignment::Left)
    }

    pub fn add_secondary_text(self, text: String) -> (res: Self)
        ensures
            Self::added(self, res, (text@, self.colors.secondary, false, Alignment::Left)),
    {
        let c = self.colors.secondary;
        self.push_part(text, c, false, Alignment::Left)
    }

    pub fn add_accent_text(self, text: String) -> (res: Self)
        ensures
            Self::added(self, res, (text@, self.colors.accent, false, Alignment::Left)),
    {
        let c = self.colors.accent;
        self.push_part(text, c, false, Alignment::Left)
    }

    pub fn add_colored_text(self, text: String, color: Color) -> (res: Self)
        ensures
            Self::added(self, res, (text@, color, false, Alignment::Left)),
    {
        self.push_part(text, color, false, Alignment::Left)
    }

    pub fn add_separator(self) -> (res: Self)
        ensures
            Self::added(self, res, (" • "@, self.colors.muted, false, Alignment::Left)),
    {
        let c = self.colors.muted;
        self.push_part(" • ".to_owned(), c, false, Alignment::Left)
    }

    pub fn add_spacer(self) -> (res: Self)
        ensures
            Self::added(self, res, (" "@, self.colors.primary, false, Alignment::Left)),
    {
        let c = self.colors.primary;
        self.push_part(" ".to_owned(), c, false, Alignment::Left)
    }

    pub fn with_layout_style(self, style: LayoutStyle) -> (res: Self)
        ensures
            res == (ListItemBuilder { layout_style: style, ..self }),
    {
        ListItemBuilder { layout_style: style, ..self }
    }

    pub fn with_width(self, width: usize) -> (res: Self)
        ensures
            res == (ListItemBuilder { width: Some(width), ..self }),
    {
        ListItemBuilder { width: Some(width), ..self }
    }

    /// Progress shown as a 20-cell bar and a percentage.
    pub fn with_progress(self, current: usize, total: usize) -> (res: Self)
        ensures
            res == (ListItemBuilder {
                progress_info: Some(ProgressInfo { current, total, show_percentage: true, bar_width: 20 }),
                ..self
            }),
    {
        ListItemBuilder {
            progress_info: Some(ProgressInfo { current, total, show_percentage: true, bar_width: 20 }),
            ..self
        }
    }

    /// Progress shown as a bar of the given width and "current/total".
    pub fn with_simple_progress(self, current: usize, total: usize, bar_width: usize) -> (res: Self)
        ensures
            res == (ListItemBuilder {
                progress_info: Some(ProgressInfo { current, total, show_percentage: false, bar_width }),
                ..self
            }),
    {
        ListItemBuilder {
            progress_info: Some(ProgressInfo { current, total, show_percentage: false, bar_width }),
            ..self
        }
    }

    pub fn with_separator(self, show: bool) -> (res: Self)
        ensures
            res == (ListItemBuilder { show_separator: show, ..self }),
    {
        ListItemBuilder { show_separator: show, ..self }
    }

    pub fn add_right_aligned_text(self, text: String, color: Color) -> (res: Self)
        ensures
            Self::added(self, res, (text@, color, false, Alignment::Right)),
    {
        self.push_part(text, color, false, Alignment::Right)
    }

    pub fn add_centered_text(self, text: String, color: Color) -> (res: Self)
        ensures
            Self::added(self, res, (text@, color, false, Alignment::Center)),
    {
        self.push_part(text, color, false, Alignment::Center)
    }

    /// Adds a badge " text ", bold, in the badge's text colour.
    pub fn add_badge(self, text: String, badge_type: BadgeType) -> (res: Self)
        ensures
            Self::added(self, res, (" "@ + text@ + " "@, badge_text_color(badge_type), true, Alignment::Left)),
    {
        let fg = match badge_type {
            BadgeType::Success => Color::Black,
            BadgeType::Warning => Color::Black,
            BadgeType::Error => Color::White,
            BadgeType::Info => Color::White,
            BadgeType::Primary => Color::Black,
        };
        let mut t = " ".to_owned();
        t.append(text.as_str());
        t.append(" ");
        self.push_part(t, fg, true, Alignment::Left)
    }

    pub fn add_visual_separator(self) -> (res: Self)
        ensures
            Self::added(self, res, (" | "@, self.colors.separator, false, Alignment::Left)),
    {
        let c = self.colors.separator;
        self.push_part(" | ".to_owned(), c, false, Alignment::Left)
    }

    pub fn add_subtle_separator(self) -> (res: Self)
        ensures
            Self::added(self, res, (" - "@, self.colors.dim, false, Alignment::Left)),
    {
        let c = self.colors.dim;
        self.push_part(" - ".to_owned(), c, false, Alignment::Left)
    }

    /// How the whole item is emphasised: selection before focus.
    pub fn emphasis(&self) -> (res: ItemEmphasis)
        ensures
            res == (if self.is_selected {
                ItemEmphasis::Selected(self.colors.selected)
            } else if self.is_focused {
                ItemEmphasis::Focused(self.colors.focused)
            } else {
                ItemEmphasis::Plain
            }),
    {
        if self.is_selected {
            ItemEmphasis::Selected(self.colors.selected)
        } else if self.is_focused {
            ItemEmphasis::Focused(self.colors.focused)
        } else {
            ItemEmphasis::Plain
        }
    }

    /// Whether a separator line goes under the item: a card with separator on.
    pub fn has_separator_line(&self) -> (res: bool)
        ensures
            res == (self.layout_style == LayoutStyle::Card && self.show_separator),
    {
        self.layout_style == LayoutStyle::Card && self.show_separator
    }
}

/// The text colour of a badge.
pub open spec fn badge_text_color(badge_type: BadgeType) -> Color {
    match badge_type {
        BadgeType::Success | BadgeType::Warning | BadgeType::Primary => Color::Black,
        BadgeType::Error | BadgeType::Info => Color::White,
    }
}

/// The colour of a type badge.
pub open spec fn type_color(t: TypeIndicator, colors: ListColors) -> Color {
    match t {
        TypeIndicator::Fifo => colors.info,
        TypeIndicator::Standard => colors.accent,
        TypeIndicator::Database => colors.success,
        TypeIndicator::Queue => colors.warning,
        TypeIndicator::Service => colors.primary,
        TypeIndicator::Other(_) => colors.muted,
    }
}

} // verus!

verus! {

/// Adding parts never shrinks the text of any alignment.
proof fn lemma_aligned_bytes_grow(parts: Seq<PartView>, i: int, a: Alignment)
    requires
        0 <= i <= parts.len(),
    ensures
        text_bytes(aligned_spans(parts.take(i), a)) <= text_bytes(aligned_spans(parts, a)),
    decreases parts.len(),
{
    if i == parts.len() {
        assert(parts.take(i) =~= parts);
    } else {
        let init = parts.drop_last();
        assert(parts.take(i) =~= init.take(i));
        lemma_aligned_bytes_grow(init, i, a);
        let p = parts.last();
        if p.3 == a {
            lemma_text_bytes_push(aligned_spans(init, a), (p.0, Some(p.1), p.2));
        }
    }
}

/// The text bytes of a line with one more span.
proof fn lemma_text_bytes_push(spans: Seq<SpanView>, s: SpanView)
    ensures
        text_bytes(spans.push(s)) == text_bytes(spans) + encode_utf8(s.0).len(),
{
    assert(spans.push(s).drop_last() =~= spans);
}

impl ListItemBuilder {
    /// The texts of the parts, split by alignment.
    pub open spec fn parts_by(&self, a: Alignment) -> Seq<SpanView> {
        aligned_spans(part_views(self.content_parts@), a)
    }

    /// The main content line of the item.
    pub fn build_main_line(&self) -> (res: Vec<StyledSpan>)
        requires
            text_bytes(self.parts_by(Alignment::Left)) + 2 * text_bytes(self.parts_by(Alignment::Center))
                + text_bytes(self.parts_by(Alignment::Right)) <= usize::MAX,
        ensures
            span_views(res@) == main_line(part_views(self.content_parts@), item_width(self.width)),
    {
        let available_width: usize = match self.width {
            Some(w) => w,
            None => 80,
        };
        let ghost pv = part_views(self.content_parts@);
        let mut left: Vec<StyledSpan> = Vec::new();
        let mut center: Vec<StyledSpan> = Vec::new();
        let mut right: Vec<StyledSpan> = Vec::new();
        let mut left_len: usize = 0;
        let mut center_len: usize = 0;
        let mut right_len: usize = 0;
        let n = self.content_parts.len();
        let mut i: usize = 0;
        while i < n
            invariant
                0 <= i <= n,
                n == self.content_parts@.len(),
                pv == part_views(self.content_parts@),
                text_bytes(aligned_spans(pv, Alignment::Left)) + 2 * text_bytes(aligned_spans(pv, Alignment::Center))
                    + text_bytes(aligned_spans(pv, Alignment::Right)) <= usize::MAX,
                span_views(left@) == aligned_spans(pv.take(i as int), Alignment::Left),
                span_views(center@) == aligned_spans(pv.take(i as int), Alignment::Center),
                span_views(right@) == aligned_spans(pv.take(i as int), Alignment::Right),
                left_len == text_bytes(span_views(left@)),
                center_len == text_bytes(span_views(center@)),
                right_len == text_bytes(span_views(right@)),
            decreases n - i,
        {
            let part = &self.content_parts[i];
            let span = StyledSpan { text: part.text.clone(), color: Some(part.color), bold: part.bold };
            let len = byte_len(&part.text);
            let ghost view: SpanView = (part.text@, Some(part.color), part.bold);
            proof {
                assert(pv.take(i + 1).drop_last() =~= pv.take(i as int));
                assert(pv.take(i + 1).last() == pv[i as int]);
                assert(pv[i as int] == (part.text@, part.color, part.bold, part.alignment));
                lemma_aligned_bytes_grow(pv, i + 1, Alignment::Left);
                lemma_aligned_bytes_grow(pv, i + 1, Alignment::Center);
                lemma_aligned_bytes_grow(pv, i + 1, Alignment::Right);
            }
            match part.alignment {
                Alignment::Left => {
                    let ghost prev = left@;
                    proof {
                        lemma_text_bytes_push(span_views(prev), view);
                        assert(span_views(prev.push(span)) =~= span_views(prev).push(view));
                    }
                    left.push(span);
                    left_len = left_len + len;
                },
                Alignment::Center => {
                    let ghost prev = center@;
                    proof {
                        lemma_text_bytes_push(span_views(prev), view);
                        assert(span_views(prev.push(span)) =~= span_views(prev).push(view));
                    }
                    center.push(span);
                    center_len = center_len + len;
                },
                Alignment::Right => {
                    let ghost prev = right@;
                    proof {
                        lemma_text_bytes_push(span_views(prev), view);
                        assert(span_views(prev.push(span)) =~= span_views(prev).push(view));
                    }
                    right.push(span);
                    right_len = right_len + len;
                },
            }
            i = i + 1;
        }
        proof {
            assert(pv.take(n as int) =~= pv);
        }
        let ghost lv = span_views(left@);
        let ghost cv = span_views(center@);
        let ghost rv = span_views(right@);
        let mut line = left;
        let center_empty = center.len() == 0;
        if !center_empty {
            let remaining = if available_width >= left_len + right_len { available_width - (left_len + right_len) } else { 0 };
            let center_padding = (if remaining >= center_len { remaining - center_len } else { 0 }) / 2;
            if center_padding > 0 {
                let ghost prev = line@;
                let b = blank_span(center_padding);
                line.push(b);
                proof {
                    assert(span_views(line@) =~= span_views(prev).push(blank(center_padding as nat)));
                }
            }
            append_spans(&mut line, center);
        }
        proof {
            assert(span_views(line@) == (if cv.len() == 0 {
                lv
            } else if saturating_sub(saturating_sub(available_width as nat, (left_len + right_len) as nat), center_len as nat) / 2 > 0 {
                lv.push(blank(saturating_sub(saturating_sub(available_width as nat, (left_len + right_len) as nat), center_len as nat) / 2)) + cv
            } else {
                lv + cv
            }));
        }
        if right.len() > 0 {
            let used_width = left_len + center_len + if center_empty { 0 } else { center_len };
            let padding = if available_width >= used_width + right_len { available_width - (used_width + right_len) } else { 0 };
            if padding > 0 {
                let ghost prev = line@;
                let b = blank_span(padding);
                line.push(b);
                proof {
                    assert(span_views(line@) =~= span_views(prev).push(blank(padding as nat)));
                }
            }
            append_spans(&mut line, right);
        }
        line
    }

    /// The separator line under a card.
    pub fn build_separator_line(&self) -> (res: Vec<StyledSpan>)
        ensures
            span_views(res@) == separator_line(item_width(self.width), self.colors.separator),
    {
        proof {
            reveal_strlit(" ");
            reveal_strlit("-");
        }
        let width: usize = match self.width {
            Some(w) => w,
            None => 80,
        };
        let dashes = repeat_str("-", if width >= 2 { width - 2 } else { 0 });
        let res = vec![
            StyledSpan { text: " ".to_owned(), color: None, bold: false },
            StyledSpan { text: dashes, color: Some(self.colors.separator), bold: false },
        ];
        assert(span_views(res@) =~= separator_line(item_width(self.width), self.colors.separator));
        res
    }
}

} // verus!

verus! {

/// A copy of a line.
fn clone_line(line: &Vec<StyledSpan>) -> (res: Vec<StyledSpan>)
    ensures
        span_views(res@) == span_views(line@),
{
    let mut res: Vec<StyledSpan> = Vec::new();
    append_spans(&mut res, clone_spans(line));
    assert(span_views(res@) =~= span_views(line@));
    res
}

fn clone_spans(line: &Vec<StyledSpan>) -> (res: Vec<StyledSpan>)
    ensures
        span_views(res@) == span_views(line@),
{
    let mut res: Vec<StyledSpan> = Vec::new();
    let mut i: usize = 0;
    while i < line.len()
        invariant
            0 <= i <= line@.len(),
            span_views(res@) == span_views(line@).take(i as int),
        decreases line@.len() - i,
    {
        let ghost prev = res@;
        let c = line[i].clone_span();
        res.push(c);
        proof {
            assert(res@ == prev.push(c));
            assert(span_views(res@) =~= span_views(prev).push((c.text@, c.color, c.bold)));
            assert(span_views(line@)[i as int] == (line@[i as int].text@, line@[i as int].color, line@[i as int].bold));
            assert(span_views(res@) =~= span_views(line@).take(i + 1));
        }
        i = i + 1;
    }
    assert(span_views(line@).take(line@.len() as int) =~= span_views(line@));
    res
}

/// A one-span line in the default style.
fn plain_line(text: &str) -> (res: Vec<StyledSpan>)
    ensures
        span_views(res@) == seq![(text@, None::<Color>, false)],
{
    let res = vec![StyledSpan { text: text.to_owned(), color: None, bold: false }];
    assert(span_views(res@) =~= seq![(text@, None::<Color>, false)]);
    res
}

impl ListItemBuilder {
    /// The lines laid out in the builder's style: as they are; with a line of one
    /// space between lines; joined into one line (a space between) when there is
    /// more than one; or as a card between dashed borders with side bars.
    pub fn apply_layout_styling(&self, lines: Vec<Vec<StyledSpan>>) -> (res: Vec<Vec<StyledSpan>>)
        ensures
            line_views(res@) == styled_lines(
                self.layout_style,
                line_views(lines@),
                item_width(self.width),
                self.colors.separator,
            ),
    {
        proof {
            reveal_strlit(" ");
            reveal_strlit("+");
            reveal_strlit("-");
        }
        let ghost lv = line_views(lines@);
        let n = lines.len();
        match self.layout_style {
            LayoutStyle::Standard => lines,
            LayoutStyle::Enhanced => {
                let mut out: Vec<Vec<StyledSpan>> = Vec::new();
                let mut i: usize = 0;
                while i < n
                    invariant
                        0 <= i <= n,
                        n == lines@.len(),
                        lv == line_views(lines@),
                        line_views(out@) == spaced_lines(lv.take(i as int)),
                    decreases n - i,
                {
                    proof {
                        assert(lv.take(i + 1).drop_last() =~= lv.take(i as int));
                        assert(lv.take(i + 1).last() == lv[i as int]);
                    }
                    if i > 0 {
                        let ghost prev = out@;
                        out.push(plain_line(" "));
                        assert(line_views(out@) =~= line_views(prev).push(space_line()));
                    }
                    let ghost prev = out@;
                    out.push(clone_line(&lines[i]));
                    proof {
                        assert(line_views(out@) =~= line_views(prev).push(lv[i as int]));
                        if i == 0 {
                            assert(lv.take(1) =~= seq![lv[0]]);
                        }
                    }
                    i = i + 1;
                }
                assert(lv.take(n as int) =~= lv);
                out
            },
            LayoutStyle::Compact => {
                if n <= 1 {
                    return lines;
                }
                let mut acc: Vec<StyledSpan> = Vec::new();
                let mut i: usize = 0;
                while i < n
                    invariant
                        0 <= i <= n,
                        n == lines@.len(),
                        lv == line_views(lines@),
                        span_views(acc@) == joined_line(lv.take(i as int)),
                    decreases n - i,
                {
                    proof {
                        assert(lv.take(i + 1).drop_last() =~= lv.take(i as int));
                        assert(lv.take(i + 1).last() == lv[i as int]);
                    }
                    if i > 0 {
                        let ghost prev = acc@;
                        acc.push(StyledSpan { text: " ".to_owned(), color: None, bold: false });
                        assert(span_views(acc@) =~= span_views(prev).push((" "@, None, false)));
                    }
                    append_spans(&mut acc, clone_spans(&lines[i]));
                    proof {
                        assert(line_views(lines@)[i as int] == span_views(lines@[i as int]@));
                        if i == 0 {
                            assert(lv.take(1) =~= seq![lv[0]]);
                            assert(span_views(acc@) =~= lv[0]);
                        }
                    }
                    i = i + 1;
                }
                assert(lv.take(n as int) =~= lv);
                let res = vec![acc];
                assert(line_views(res@) =~= seq![joined_line(lv)]);
                res
            },
            LayoutStyle::Card => {
                let width: usize = match self.width {
                    Some(w) => w,
                    None => 80,
                };
                let sep = self.colors.separator;
                let mut out: Vec<Vec<StyledSpan>> = Vec::new();
                out.push(card_border_line(width, sep));
                let mut i: usize = 0;
                while i < n
                    invariant
                        0 <= i <= n,
                        n == lines@.len(),
                        lv == line_views(lines@),
                        line_views(out@) == seq![card_border(width as nat, sep)] + Seq::new(
                            i as nat,
                            |k: int| card_line(lv[k], sep),
                        ),
                    decreases n - i,
                {
                    let mut bordered: Vec<StyledSpan> = Vec::new();
                    bordered.push(StyledSpan { text: " | ".to_owned(), color: Some(sep), bold: false });
                    append_spans(&mut bordered, clone_spans(&lines[i]));
                    let ghost mid = bordered@;
                    bordered.push(StyledSpan { text: " |".to_owned(), color: Some(sep), bold: false });
                    proof {
                        assert(span_views(bordered@) =~= span_views(mid).push((" |"@, Some(sep), false)));
                        assert(span_views(bordered@) =~= card_line(lv[i as int], sep));
                    }
                    let ghost prev = out@;
                    out.push(bordered);
                    proof {
                        assert(line_views(out@) =~= line_views(prev).push(card_line(lv[i as int], sep)));
                        assert(line_views(out@) =~= seq![card_border(width as nat, sep)] + Seq::new(
                            (i + 1) as nat,
                            |k: int| card_line(lv[k], sep),
                        ));
                    }
                    i = i + 1;
                }
                let ghost prev = out@;
                out.push(card_border_line(width, sep));
                proof {
                    assert(line_views(out@) =~= line_views(prev).push(card_border(width as nat, sep)));
                    assert(line_views(out@) =~= card_lines(lv, item_width(self.width), sep));
                }
                out
            },
        }
    }
}

/// The dashed top or bottom border of a card.
fn card_border_line(width: usize, sep: Color) -> (res: Vec<StyledSpan>)
    ensures
        span_views(res@) == card_border(width as nat, sep),
{
    proof {
        reveal_strlit(" ");
        reveal_strlit("+");
        reveal_strlit("-");
    }
    let mut border = "+".to_owned();
    let dashes = repeat_str("-", if width >= 4 { width - 4 } else { 0 });
    border.append(dashes.as_str());
    border.append("+");
    let res = vec![
        StyledSpan { text: " ".to_owned(), color: None, bold: false },
        StyledSpan { text: border, color: Some(sep), bold: false },
    ];
    assert(span_views(res@) =~= card_border(width as nat, sep));
    res
}

} // verus!

verus! {

/// The parts of a list entry: the status badge and a bar (unless there is no
/// status), the name, then a bar and the description if any, and the right-hand
/// information if any.
pub open spec fn list_entry_parts(
    name: Seq<char>,
    status: StatusIndicator,
    description: Option<Seq<char>>,
    right_info: Option<Seq<char>>,
    colors: ListColors,
) -> Seq<PartView> {
    let badge: Seq<PartView> = if status == StatusIndicator::NoStatus {
        Seq::empty()
    } else {
        seq![
            ("["@ + status_text(status) + "]"@, status_color(status, colors), true, Alignment::Left),
            (" | "@, colors.separator, false, Alignment::Left),
        ]
    };
    let named = badge.push((name, colors.primary, true, Alignment::Left));
    let described = match description {
        Some(d) => named.push((" | "@, colors.separator, false, Alignment::Left)).push(
            (d, colors.secondary, false, Alignment::Left),
        ),
        None => named,
    };
    match right_info {
        Some(r) => described.push((r, colors.secondary, false, Alignment::Right)),
        None => described,
    }
}

/// The builder of a list entry in the standard layout.
pub fn list_item_builder(
    name: &str,
    status: StatusIndicator,
    description: Option<&str>,
    right_info: Option<&str>,
    is_selected: bool,
    is_focused: bool,
    colors: &ListColors,
) -> (res: ListItemBuilder)
    ensures
        part_views(res.content_parts@) == list_entry_parts(
            name@,
            status,
            opt_view(description),
            opt_view(right_info),
            *colors,
        ),
        res.colors == *colors,
        res.is_selected == is_selected,
        res.is_focused == is_focused,
        res.layout_style == LayoutStyle::Standard,
        res.progress_info is None,
        res.width is None,
        !res.show_separator,
{
    let mut builder = ListItemBuilder::new(*colors).selected(is_selected).focused(is_focused).with_layout_style(
        LayoutStyle::Standard,
    );
    let has_status = status != StatusIndicator::NoStatus;
    builder = builder.add_status_indicator(status);
    if has_status {
        builder = builder.add_visual_separator();
    }
    builder = builder.add_primary_text(name.to_owned());
    if let Some(desc) = description {
        builder = builder.add_visual_separator();
        builder = builder.add_secondary_text(desc.to_owned());
    }
    if let Some(info) = right_info {
        builder = builder.add_right_aligned_text(info.to_owned(), colors.secondary);
    }
    proof {
        assert(part_views(builder.content_parts@) =~= list_entry_parts(
            name@,
            status,
            opt_view(description),
            opt_view(right_info),
            *colors,
        ));
    }
    builder
}

/// The builder of a plain list entry: the name, and the right-hand information
/// if any.
pub fn simple_list_item_builder(
    name: &str,
    right_info: Option<&str>,
    is_selected: bool,
    is_focused: bool,
    colors: &ListColors,
) -> (res: ListItemBuilder)
    ensures
        part_views(res.content_parts@) == (match opt_view(right_info) {
            Some(r) => seq![
                (name@, colors.primary, true, Alignment::Left),
                (r, colors.secondary, false, Alignment::Right),
            ],
            None => seq![(name@, colors.primary, true, Alignment::Left)],
        }),
        res.colors == *colors,
        res.is_selected == is_selected,
        res.is_focused == is_focused,
        res.layout_style == LayoutStyle::Standard,
        res.progress_info is None,
        res.width is None,
        !res.show_separator,
{
    let mut builder = ListItemBuilder::new(*colors).selected(is_selected).focused(is_focused).with_layout_style(
        LayoutStyle::Standard,
    );
    builder = builder.add_primary_text(name.to_owned());
    if let Some(info) = right_info {
        builder = builder.add_right_aligned_text(info.to_owned(), colors.secondary);
    }
    proof {
        assert(part_views(builder.content_parts@) =~= (match opt_view(right_info) {
            Some(r) => seq![
                (name@, colors.primary, true, Alignment::Left),
                (r, colors.secondary, false, Alignment::Right),
            ],
            None => seq![(name@, colors.primary, true, Alignment::Left)],
        }));
    }
    builder
}

/// The builder of a service entry: online, with its description and its type
/// on the right.
pub fn service_item_builder(
    service_name: &str,
    service_type: &str,
    description: &str,
    is_selected: bool,
    is_focused: bool,
    colors: &ListColors,
) -> (res: ListItemBuilder)
    ensures
        part_views(res.content_parts@) == list_entry_parts(
            service_name@,
            StatusIndicator::Available,
            Some(description@),
            Some(service_type@),
            *colors,
        ),
        res.colors == *colors,
        res.is_selected == is_selected,
        res.is_focused == is_focused,
        res.layout_style == LayoutStyle::Standard,
{
    list_item_builder(
        service_name,
        StatusIndicator::Available,
        Some(description),
        Some(service_type),
        is_selected,
        is_focused,
        colors,
    )
}

/// The builder of an instance entry: the status read from the status text, the
/// class and engine as description, the status text on the right.
pub fn instance_item_builder(
    instance_name: &str,
    status: &str,
    instance_type: Option<&str>,
    engine_or_type: Option<&str>,
    is_selected: bool,
    is_focused: bool,
    colors: &ListColors,
) -> (res: ListItemBuilder)
    ensures
        part_views(res.content_parts@) == list_entry_parts(
            instance_name@,
            instance_status(spec_to_lowercase(status@)),
            Some(instance_description_text(opt_view(instance_type), opt_view(engine_or_type))),
            Some(status@),
            *colors,
        ),
        res.colors == *colors,
        res.is_selected == is_selected,
        res.is_focused == is_focused,
        res.layout_style == LayoutStyle::Standard,
{
    let indicator = instance_status_indicator(status);
    let description = instance_description(instance_type, engine_or_type);
    list_item_builder(
        instance_name,
        indicator,
        Some(description.as_str()),
        Some(status),
        is_selected,
        is_focused,
        colors,
    )
}

} // verus!
