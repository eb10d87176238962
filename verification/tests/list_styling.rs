use cloudwatch_tui::components::list_styling::{
    create_status_message, format_list_text, instance_description, instance_item_builder, instance_status_indicator,
    list_item_builder, service_item_builder, simple_list_item_builder, Alignment, BadgeType, ItemEmphasis,
    LayoutStyle, ListColors, ListItemBuilder, StatusIndicator, StyledSpan, TypeIndicator,
};
use cloudwatch_tui::style::Color;

fn colors() -> ListColors {
    ListColors {
        primary: Color::White,
        secondary: Color::Gray,
        accent: Color::Cyan,
        success: Color::Green,
        warning: Color::Yellow,
        error: Color::Red,
        info: Color::Blue,
        muted: Color::DarkGray,
        background: Color::Black,
        selected: Color::Black,
        focused: Color::Yellow,
        separator: Color::DarkGray,
        progress_bg: Color::DarkGray,
        progress_fg: Color::Green,
        highlight: Color::Yellow,
        dim: Color::Gray,
        border: Color::White,
    }
}

fn texts(line: &[StyledSpan]) -> Vec<String> {
    line.iter().map(|s| s.text.clone()).collect()
}

#[test]
fn status_and_type_badges() {
    assert_eq!(StatusIndicator::Available.to_text(), "ONLINE");
    assert_eq!(StatusIndicator::NoStatus.to_text(), "");
    assert_eq!(StatusIndicator::Stopping.color(&colors()), Color::Yellow);
    assert_eq!(TypeIndicator::Fifo.to_text(), "FIFO");
    assert_eq!(TypeIndicator::Other("postgres".to_string()).to_text(), "POSTGRES");
    assert_eq!(TypeIndicator::Other("x".to_string()).color(&colors()), Color::DarkGray);
}

#[test]
fn list_text_padding_and_cutting() {
    assert_eq!(format_list_text("abc", None), "  abc");
    assert_eq!(format_list_text("abc", Some(6)), "abc   ");
    assert_eq!(format_list_text("abcdefgh", Some(6)), "abc...");
    assert_eq!(format_list_text("abcd", Some(2)), "...");
    assert_eq!(format_list_text("abcd", Some(4)), "abcd");
    // Widths count characters when padding.
    assert_eq!(format_list_text("é", Some(3)), "é  ");
}

#[test]
fn status_messages() {
    assert_eq!(create_status_message("Loading instances", StatusIndicator::Info, &colors()), "[INFO] Loading instances");
    assert_eq!(create_status_message("x", StatusIndicator::NoStatus, &colors()), "[] x");
}

#[test]
fn instance_status_and_description() {
    assert_eq!(instance_status_indicator("Available"), StatusIndicator::Available);
    assert_eq!(instance_status_indicator("RUNNING"), StatusIndicator::Available);
    assert_eq!(instance_status_indicator("offline"), StatusIndicator::Stopped);
    assert_eq!(instance_status_indicator("Starting"), StatusIndicator::Starting);
    assert_eq!(instance_status_indicator("stopping"), StatusIndicator::Stopping);
    assert_eq!(instance_status_indicator("Failed"), StatusIndicator::Error);
    assert_eq!(instance_status_indicator("modifying"), StatusIndicator::Unknown);
    assert_eq!(instance_description(Some("db.t3.micro"), Some("postgres")), "db.t3.micro - postgres");
    assert_eq!(instance_description(Some("db.t3.micro"), None), "db.t3.micro");
    assert_eq!(instance_description(None, Some("mysql")), "mysql");
    assert_eq!(instance_description(None, None), "Instance");
}

#[test]
fn main_line_layout() {
    let b = ListItemBuilder::new(colors())
        .with_width(20)
        .add_primary_text("name".to_string())
        .add_right_aligned_text("R".to_string(), Color::Gray);
    let line = b.build_main_line();
    // 20 - (4 + 1) = 15 spaces before the right-hand text.
    assert_eq!(texts(&line), vec!["name".to_string(), " ".repeat(15), "R".to_string()]);
    assert_eq!(line[1].color, None);
    assert_eq!(line[0].color, Some(Color::White));
    assert!(line[0].bold);

    let b = ListItemBuilder::new(colors())
        .with_width(20)
        .add_primary_text("ab".to_string())
        .add_centered_text("mid".to_string(), Color::Cyan)
        .add_right_aligned_text("z".to_string(), Color::Gray);
    // Centre padding: (20 - 3 - 3) / 2 = 7; right padding counts the centre twice: 20 - (2 + 3 + 3 + 1) = 11.
    assert_eq!(
        texts(&b.build_main_line()),
        vec!["ab".to_string(), " ".repeat(7), "mid".to_string(), " ".repeat(11), "z".to_string()]
    );
    // No room left: no padding.
    let b = ListItemBuilder::new(colors()).with_width(3).add_primary_text("abcd".to_string()).add_right_aligned_text("z".to_string(), Color::Gray);
    assert_eq!(texts(&b.build_main_line()), vec!["abcd".to_string(), "z".to_string()]);
}

#[test]
fn builder_parts_and_badges() {
    let b = ListItemBuilder::new(colors())
        .add_status_indicator(StatusIndicator::Error)
        .add_status_indicator(StatusIndicator::NoStatus)
        .add_type_indicator(TypeIndicator::Queue)
        .add_separator()
        .add_badge("NEW".to_string(), BadgeType::Error)
        .add_subtle_separator()
        .add_spacer()
        .add_accent_text("a".to_string())
        .add_colored_text("c".to_string(), Color::Magenta)
        .add_secondary_text("s".to_string());
    let t: Vec<&str> = b.content_parts.iter().map(|p| p.text.as_str()).collect();
    assert_eq!(t, vec!["[ERROR]", "(QUEUE)", " • ", " NEW ", " - ", " ", "a", "c", "s"]);
    assert_eq!(b.content_parts[3].color, Color::White);
    assert!(b.content_parts.iter().all(|p| p.alignment == Alignment::Left));
    assert_eq!(b.emphasis(), ItemEmphasis::Plain);
    assert_eq!(b.clone().selected(true).focused(true).emphasis(), ItemEmphasis::Selected(Color::Black));
    assert_eq!(b.clone().focused(true).emphasis(), ItemEmphasis::Focused(Color::Yellow));
}

#[test]
fn layout_styles() {
    let base = ListItemBuilder::new(colors()).with_width(10);
    let lines = vec![
        vec![StyledSpan { text: "a".to_string(), color: None, bold: false }],
        vec![StyledSpan { text: "b".to_string(), color: None, bold: false }],
    ];
    let std = base.clone().apply_layout_styling(lines.clone());
    assert_eq!(std.len(), 2);
    let enhanced = base.clone().with_layout_style(LayoutStyle::Enhanced).apply_layout_styling(lines.clone());
    assert_eq!(enhanced.iter().map(|l| texts(l)).collect::<Vec<_>>(), vec![vec!["a"], vec![" "], vec!["b"]]);
    let compact = base.clone().with_layout_style(LayoutStyle::Compact).apply_layout_styling(lines.clone());
    assert_eq!(compact.iter().map(|l| texts(l)).collect::<Vec<_>>(), vec![vec!["a", " ", "b"]]);
    let card = base.clone().with_layout_style(LayoutStyle::Card).apply_layout_styling(lines.clone());
    assert_eq!(
        card.iter().map(|l| texts(l)).collect::<Vec<_>>(),
        vec![
            vec![" ".to_string(), "+------+".to_string()],
            vec![" | ".to_string(), "a".to_string(), " |".to_string()],
            vec![" | ".to_string(), "b".to_string(), " |".to_string()],
            vec![" ".to_string(), "+------+".to_string()],
        ]
    );
    let sep = base.clone().with_layout_style(LayoutStyle::Card).with_separator(true);
    assert!(sep.has_separator_line());
    assert_eq!(texts(&sep.build_separator_line()), vec![" ".to_string(), "--------".to_string()]);
    let p = base.with_progress(3, 4);
    assert_eq!(p.progress_info.unwrap().bar_width, 20);
}

#[test]
fn entry_builders() {
    let b = list_item_builder("db1", StatusIndicator::Available, Some("desc"), Some("info"), true, false, &colors());
    let t: Vec<&str> = b.content_parts.iter().map(|p| p.text.as_str()).collect();
    assert_eq!(t, vec!["[ONLINE]", " | ", "db1", " | ", "desc", "info"]);
    assert_eq!(b.content_parts[5].alignment, Alignment::Right);
    assert!(b.is_selected);
    let b = list_item_builder("db1", StatusIndicator::NoStatus, None, None, false, false, &colors());
    assert_eq!(b.content_parts.len(), 1);
    let b = simple_list_item_builder("1h", Some("x"), false, true, &colors());
    assert_eq!(b.content_parts.len(), 2);
    let b = service_item_builder("RDS", "Database", "Relational", false, false, &colors());
    assert_eq!(b.content_parts[0].text, "[ONLINE]");
    assert_eq!(b.content_parts[5].text, "Database");
    let b = instance_item_builder("db", "stopped", Some("db.m5"), Some("mysql"), false, false, &colors());
    let t: Vec<&str> = b.content_parts.iter().map(|p| p.text.as_str()).collect();
    assert_eq!(t, vec!["[STOPPED]", " | ", "db", " | ", "db.m5 - mysql", "stopped"]);
}
