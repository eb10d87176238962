//! The style guide screen: the entries that show off the theme's palette, the
//! list components and the item layouts.
use vstd::prelude::*;
use crate::components::list_styling::{
    badge_text_color, part_views, status_color, status_text, type_color, Alignment, BadgeType, LayoutStyle,
    ListColors, ListItemBuilder, PartView, StatusIndicator, TypeIndicator,
};
use crate::style::{Color, UnifiedTheme};

verus! {

broadcast use vstd::string::group_string_axioms;

/// `b` is a fresh item with `colors`, laid out as `style` at `width`, holding the
/// parts `parts`.
pub open spec fn demo_item(
    b: ListItemBuilder,
    colors: ListColors,
    parts: Seq<PartView>,
    style: LayoutStyle,
    width: Option<usize>,
) -> bool {
    &&& b.colors == colors
    &&& part_views(b.content_parts@) == parts
    &&& !b.is_selected
    &&& !b.is_focused
    &&& b.progress_info is None
    &&& b.layout_style == style
    &&& b.width == width
    &&& !b.show_separator
}

/// Two plain parts: a name in one colour and its description in another.
pub open spec fn named(name: Seq<char>, name_color: Color, text: Seq<char>, text_color: Color) -> Seq<PartView> {
    seq![(name, name_color, false, Alignment::Left), (text, text_color, false, Alignment::Left)]
}

/// The palette entries: each colour of the theme named in that colour, with what
/// it is used for.
pub open spec fn palette_parts(theme: UnifiedTheme) -> Seq<Seq<PartView>> {
    seq![
        named("Warm White"@, theme.primary, " - Main text (warm and readable)"@, theme.secondary),
        named("Warm Cream"@, theme.secondary, " - Secondary information"@, theme.tertiary),
        named("Golden Yellow"@, theme.accent, " - Headers and accents"@, theme.secondary),
        named("Vibrant Orange"@, theme.focused, " - Focus and highlights"@, theme.secondary),
        named("Success Green"@, theme.success, " - Running/healthy status"@, theme.secondary),
        named("Vibrant Orange"@, theme.warning, " - Warnings and caution"@, theme.secondary),
        named("Coral Red"@, theme.error, " - Error states"@, theme.secondary),
        named("Info Blue"@, theme.info, " - Information and neutral status"@, theme.secondary),
        named("Chart Primary"@, theme.chart_primary, " - Primary data visualization (golden)"@, theme.secondary),
        named("Chart Secondary"@, theme.chart_secondary, " - Secondary data lines (orange)"@, theme.secondary),
        named("Chart Accent"@, theme.chart_accent, " - Accent data points (coral)"@, theme.secondary),
    ]
}

fn named_item(colors: ListColors, name: &str, name_color: Color, text: &str, text_color: Color) -> (res: ListItemBuilder)
    ensures
        demo_item(res, colors, named(name@, name_color, text@, text_color), LayoutStyle::Standard, None),
{
    let res = ListItemBuilder::new(colors).add_colored_text(name.to_owned(), name_color).add_colored_text(
        text.to_owned(),
        text_color,
    );
    assert(part_views(res.content_parts@) =~= named(name@, name_color, text@, text_color));
    res
}

/// The entries of the colour palette, built with the item colours `colors`.
pub fn color_palette_items(theme: &UnifiedTheme, colors: ListColors) -> (res: Vec<ListItemBuilder>)
    ensures
        res@.len() == palette_parts(*theme).len(),
        forall|i: int| 0 <= i < res@.len() ==> demo_item(#[trigger] res@[i], colors, palette_parts(*theme)[i], LayoutStyle::Standard, None),
{
    let t = theme;
    let res = vec![
        named_item(colors, "Warm White", t.primary, " - Main text (warm and readable)", t.secondary),
        named_item(colors, "Warm Cream", t.secondary, " - Secondary information", t.tertiary),
        named_item(colors, "Golden Yellow", t.accent, " - Headers and accents", t.secondary),
        named_item(colors, "Vibrant Orange", t.focused, " - Focus and highlights", t.secondary),
        named_item(colors, "Success Green", t.success, " - Running/healthy status", t.secondary),
        named_item(colors, "Vibrant Orange", t.warning, " - Warnings and caution", t.secondary),
        named_item(colors, "Coral Red", t.error, " - Error states", t.secondary),
        named_item(colors, "Info Blue", t.info, " - Information and neutral status", t.secondary),
        named_item(colors, "Chart Primary", t.chart_primary, " - Primary data visualization (golden)", t.secondary),
        named_item(colors, "Chart Secondary", t.chart_secondary, " - Secondary data lines (orange)", t.secondary),
        named_item(colors, "Chart Accent", t.chart_accent, " - Accent data points (coral)", t.secondary),
    ];
    res
}

/// The component examples: three status badges, two type badges, two
/// environment badges, and an entry mixing texts, a separator and right-aligned
/// text.
pub open spec fn component_parts(theme: UnifiedTheme, c: ListColors) -> Seq<Seq<PartView>> {
    seq![
        status_parts(StatusIndicator::Available, " Service Online"@, c),
        status_parts(StatusIndicator::Warning, " High CPU Usage"@, c),
        status_parts(StatusIndicator::Error, " Connection Failed"@, c),
        type_parts(TypeIndicator::Database, "DATABASE"@, " RDS Instance"@, c),
        type_parts(TypeIndicator::Queue, "QUEUE"@, " SQS Queue"@, c),
        badge_parts(BadgeType::Error, "PRODUCTION"@, " Critical Environment"@, c),
        badge_parts(BadgeType::Warning, "STAGING"@, " Test Environment"@, c),
        seq![
            ("Instance"@, c.primary, true, Alignment::Left),
            (" | "@, c.separator, false, Alignment::Left),
            ("my-database-01"@, c.secondary, false, Alignment::Left),
            ("Running"@, theme.success, false, Alignment::Right),
        ],
    ]
}

/// A status badge followed by a primary text.
pub open spec fn status_parts(s: StatusIndicator, text: Seq<char>, c: ListColors) -> Seq<PartView> {
    seq![("["@ + status_text(s) + "]"@, status_color(s, c), true, Alignment::Left), (text, c.primary, true, Alignment::Left)]
}

/// A type badge followed by a primary text.
pub open spec fn type_parts(t: TypeIndicator, name: Seq<char>, text: Seq<char>, c: ListColors) -> Seq<PartView> {
    seq![("("@ + name + ")"@, type_color(t, c), true, Alignment::Left), (text, c.primary, true, Alignment::Left)]
}

/// An environment badge followed by a primary text.
pub open spec fn badge_parts(b: BadgeType, name: Seq<char>, text: Seq<char>, c: ListColors) -> Seq<PartView> {
    seq![(" "@ + name + " "@, badge_text_color(b), true, Alignment::Left), (text, c.primary, true, Alignment::Left)]
}

fn status_item(colors: ListColors, status: StatusIndicator, text: &str) -> (res: ListItemBuilder)
    requires
        status != StatusIndicator::NoStatus,
    ensures
        demo_item(
            res,
            colors,
            status_parts(status, text@, colors),
            LayoutStyle::Standard,
            None,
        ),
{
    let res = ListItemBuilder::new(colors).add_status_indicator(status).add_primary_text(text.to_owned());
    assert(part_views(res.content_parts@) =~= seq![("["@ + status_text(status) + "]"@, status_color(status, colors), true, Alignment::Left), (text@, colors.primary, true, Alignment::Left)]);
    res
}

fn type_item(colors: ListColors, t: TypeIndicator, name: &str, text: &str) -> (res: ListItemBuilder)
    requires
        t == TypeIndicator::Database && name@ == "DATABASE"@ || t == TypeIndicator::Queue && name@ == "QUEUE"@,
    ensures
        demo_item(
            res,
            colors,
            type_parts(t, name@, text@, colors),
            LayoutStyle::Standard,
            None,
        ),
{
    let b = ListItemBuilder::new(colors);
    let ghost start = b;
    let b = b.add_type_indicator(t);
    assert(part_views(b.content_parts@) =~= seq![("("@ + name@ + ")"@, type_color(t, colors), true, Alignment::Left)]) by {
        let x = choose|x: Seq<char>| {
            &&& ListItemBuilder::added(start, b, ("("@ + x + ")"@, type_color(t, colors), true, Alignment::Left))
            &&& x == match t {
                TypeIndicator::Fifo => "FIFO"@,
                TypeIndicator::Standard => "STANDARD"@,
                TypeIndicator::Database => "DATABASE"@,
                TypeIndicator::Queue => "QUEUE"@,
                TypeIndicator::Service => "SERVICE"@,
                TypeIndicator::Other(text) => crate::text::spec_to_uppercase(text@),
            }
        };
        assert(part_views(start.content_parts@) =~= Seq::<PartView>::empty());
    }
    let res = b.add_primary_text(text.to_owned());
    assert(part_views(res.content_parts@) =~= seq![("("@ + name@ + ")"@, type_color(t, colors), true, Alignment::Left), (text@, colors.primary, true, Alignment::Left)]);
    res
}

fn badge_item(colors: ListColors, badge: BadgeType, name: &str, text: &str) -> (res: ListItemBuilder)
    ensures
        demo_item(
            res,
            colors,
            badge_parts(badge, name@, text@, colors),
            LayoutStyle::Standard,
            None,
        ),
{
    let res = ListItemBuilder::new(colors).add_badge(name.to_owned(), badge).add_primary_text(text.to_owned());
    assert(part_views(res.content_parts@) =~= seq![(" "@ + name@ + " "@, badge_text_color(badge), true, Alignment::Left), (text@, colors.primary, true, Alignment::Left)]);
    res
}

fn mixed_item(theme: &UnifiedTheme, colors: ListColors) -> (res: ListItemBuilder)
    ensures
        demo_item(res, colors, component_parts(*theme, colors)[7], LayoutStyle::Standard, None),
{
    let res = ListItemBuilder::new(colors)
        .add_primary_text("Instance".to_owned())
        .add_visual_separator()
        .add_secondary_text("my-database-01".to_owned())
        .add_right_aligned_text("Running".to_owned(), theme.success);
    assert(part_views(res.content_parts@) =~= component_parts(*theme, colors)[7]);
    res
}

/// The component examples, built with the item colours `colors`.
pub fn component_demo_items(theme: &UnifiedTheme, colors: ListColors) -> (res: Vec<ListItemBuilder>)
    ensures
        res@.len() == component_parts(*theme, colors).len(),
        forall|i: int| 0 <= i < res@.len() ==> demo_item(#[trigger] res@[i], colors, component_parts(*theme, colors)[i], LayoutStyle::Standard, None),
{
    let res = vec![
        status_item(colors, StatusIndicator::Available, " Service Online"),
        status_item(colors, StatusIndicator::Warning, " High CPU Usage"),
        status_item(colors, StatusIndicator::Error, " Connection Failed"),
        type_item(colors, TypeIndicator::Database, "DATABASE", " RDS Instance"),
        type_item(colors, TypeIndicator::Queue, "QUEUE", " SQS Queue"),
        badge_item(colors, BadgeType::Error, "PRODUCTION", " Critical Environment"),
        badge_item(colors, BadgeType::Warning, "STAGING", " Test Environment"),
        mixed_item(theme, colors),
    ];
    assert(forall|i: int| 0 <= i < res@.len() ==> demo_item(#[trigger] res@[i], colors, component_parts(*theme, colors)[i], LayoutStyle::Standard, None)) by {
        assert(demo_item(res@[0], colors, component_parts(*theme, colors)[0], LayoutStyle::Standard, None));
        assert(demo_item(res@[1], colors, component_parts(*theme, colors)[1], LayoutStyle::Standard, None));
        assert(demo_item(res@[2], colors, component_parts(*theme, colors)[2], LayoutStyle::Standard, None));
        assert(demo_item(res@[3], colors, component_parts(*theme, colors)[3], LayoutStyle::Standard, None));
        assert(demo_item(res@[4], colors, component_parts(*theme, colors)[4], LayoutStyle::Standard, None));
        assert(demo_item(res@[5], colors, component_parts(*theme, colors)[5], LayoutStyle::Standard, None));
        assert(demo_item(res@[6], colors, component_parts(*theme, colors)[6], LayoutStyle::Standard, None));
        assert(demo_item(res@[7], colors, component_parts(*theme, colors)[7], LayoutStyle::Standard, None));
    }
    res
}

/// A primary text followed by a secondary one.
pub open spec fn primary_secondary(a: Seq<char>, b: Seq<char>, c: ListColors) -> Seq<PartView> {
    seq![(a, c.primary, true, Alignment::Left), (b, c.secondary, false, Alignment::Left)]
}

/// The layout examples: a primary and a secondary text in each layout style, the
/// card thirty cells wide.
pub open spec fn layout_example_parts(c: ListColors) -> Seq<(Seq<PartView>, LayoutStyle, Option<usize>)> {
    seq![
        (primary_secondary("Standard Layout"@, " - Single line"@, c), LayoutStyle::Standard, None),
        (primary_secondary("Enhanced Layout"@, " - With spacing"@, c), LayoutStyle::Enhanced, None),
        (primary_secondary("Compact"@, " Dense"@, c), LayoutStyle::Compact, None),
        (primary_secondary("Card Layout"@, " - Bordered"@, c), LayoutStyle::Card, Some(30usize)),
    ]
}

fn layout_item(colors: ListColors, style: LayoutStyle, width: Option<usize>, primary: &str, secondary: &str) -> (res: ListItemBuilder)
    ensures
        demo_item(
            res,
            colors,
            primary_secondary(primary@, secondary@, colors),
            style,
            width,
        ),
{
    let mut b = ListItemBuilder::new(colors).with_layout_style(style);
    match width {
        Some(w) => {
            b = b.with_width(w);
        },
        None => {},
    }
    let res = b.add_primary_text(primary.to_owned()).add_secondary_text(secondary.to_owned());
    assert(part_views(res.content_parts@) =~= seq![(primary@, colors.primary, true, Alignment::Left), (secondary@, colors.secondary, false, Alignment::Left)]);
    res
}

/// The layout examples, built with the item colours `colors`.
pub fn layout_example_items(colors: ListColors) -> (res: Vec<ListItemBuilder>)
    ensures
        res@.len() == layout_example_parts(colors).len(),
        forall|i: int| 0 <= i < res@.len() ==> {
            let (parts, style, width) = layout_example_parts(colors)[i];
            demo_item(#[trigger] res@[i], colors, parts, style, width)
        },
{
    vec![
        layout_item(colors, LayoutStyle::Standard, None, "Standard Layout", " - Single line"),
        layout_item(colors, LayoutStyle::Enhanced, None, "Enhanced Layout", " - With spacing"),
        layout_item(colors, LayoutStyle::Compact, None, "Compact", " Dense"),
        layout_item(colors, LayoutStyle::Card, Some(30), "Card Layout", " - Bordered"),
    ]
}

} // verus!
