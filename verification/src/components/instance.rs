//! The list entries and detail lines of RDS instances and SQS queues.
use vstd::prelude::*;
use crate::models::{App, RdsInstance, SqsQueue};
use crate::style::Color;
use crate::text::{decimal, spec_decimal, str_eq};
use super::list_styling::{
    part_views, status_color, status_text, type_color, Alignment, LayoutStyle, ListColors, ListItemBuilder,
    PartView, StatusIndicator, TypeIndicator,
};

verus! {

broadcast use vstd::string::group_string_axioms;

/// The status badge of an RDS instance, by its exact status text.
pub open spec fn rds_status(status: Seq<char>) -> StatusIndicator {
    if status == "available"@ {
        StatusIndicator::Available
    } else if status == "stopped"@ {
        StatusIndicator::Stopped
    } else if status == "starting"@ {
        StatusIndicator::Starting
    } else if status == "stopping"@ {
        StatusIndicator::Stopping
    } else {
        StatusIndicator::Unknown
    }
}

fn rds_status_indicator(status: &str) -> (res: StatusIndicator)
    ensures
        res == rds_status(status@),
{
    if str_eq(status, "available") {
        StatusIndicator::Available
    } else if str_eq(status, "stopped") {
        StatusIndicator::Stopped
    } else if str_eq(status, "starting") {
        StatusIndicator::Starting
    } else if str_eq(status, "stopping") {
        StatusIndicator::Stopping
    } else {
        StatusIndicator::Unknown
    }
}

/// The parts of a resource entry: status badge, type badge, name, two details
/// after bars, and a right-hand label.
pub open spec fn resource_entry_parts(
    status: StatusIndicator,
    kind: TypeIndicator,
    kind_text: Seq<char>,
    name: Seq<char>,
    first: Seq<char>,
    second: Seq<char>,
    right: Seq<char>,
    right_color: Color,
    colors: ListColors,
) -> Seq<PartView> {
    seq![
        ("["@ + status_text(status) + "]"@, status_color(status, colors), true, Alignment::Left),
        ("("@ + kind_text + ")"@, type_color(kind, colors), true, Alignment::Left),
        (name, colors.primary, true, Alignment::Left),
        (" | "@, colors.separator, false, Alignment::Left),
        (first, colors.secondary, false, Alignment::Left),
        (" | "@, colors.separator, false, Alignment::Left),
        (second, colors.secondary, false, Alignment::Left),
        (right, right_color, false, Alignment::Right),
    ]
}

/// The list entry of an RDS instance, in the enhanced layout: its status (by its
/// exact status text), a database badge, its identifier, engine and status, and
/// its class on the right (in the selection colour of `colors` when selected,
/// else their accent). The entry's own colours are `builder_colors`.
pub fn rds_instance_item_builder(
    instance: &RdsInstance,
    is_selected: bool,
    builder_colors: &ListColors,
    colors: &ListColors,
) -> (res: ListItemBuilder)
    ensures
        part_views(res.content_parts@) == resource_entry_parts(
            rds_status(instance.status@),
            TypeIndicator::Database,
            "DATABASE"@,
            instance.identifier@,
            "Engine: "@ + instance.engine@,
            "Status: "@ + instance.status@,
            "Class: "@ + instance.instance_class@,
            if is_selected { colors.selected } else { colors.accent },
            *builder_colors,
        ),
        res.colors == *builder_colors,
        res.layout_style == LayoutStyle::Enhanced,
        !res.is_selected,
        !res.is_focused,
{
    let status = rds_status_indicator(instance.status.as_str());
    let mut engine = "Engine: ".to_owned();
    engine.append(instance.engine.as_str());
    let mut status_text = "Status: ".to_owned();
    status_text.append(instance.status.as_str());
    let mut class = "Class: ".to_owned();
    class.append(instance.instance_class.as_str());
    let right_color = if is_selected { colors.selected } else { colors.accent };
    let b = ListItemBuilder::new(*builder_colors)
        .with_layout_style(LayoutStyle::Enhanced)
        .add_status_indicator(status)
        .add_type_indicator(TypeIndicator::Database)
        .add_primary_text(instance.identifier.clone())
        .add_visual_separator()
        .add_secondary_text(engine)
        .add_visual_separator()
        .add_secondary_text(status_text)
        .add_right_aligned_text(class, right_color);
    proof {
        reveal_strlit("DATABASE");
        assert(status != StatusIndicator::NoStatus);
    }
    assert(part_views(b.content_parts@) =~= resource_entry_parts(
        rds_status(instance.status@),
        TypeIndicator::Database,
        "DATABASE"@,
        instance.identifier@,
        "Engine: "@ + instance.engine@,
        "Status: "@ + instance.status@,
        "Class: "@ + instance.instance_class@,
        right_color,
        *builder_colors,
    ));
    b
}

/// The list entry of an SQS queue, in the enhanced layout: always available, a
/// queue badge, its name, type and status, and "SQS Queue" on the right.
pub fn sqs_queue_item_builder(
    queue: &SqsQueue,
    is_selected: bool,
    builder_colors: &ListColors,
    colors: &ListColors,
) -> (res: ListItemBuilder)
    ensures
        part_views(res.content_parts@) == resource_entry_parts(
            StatusIndicator::Available,
            TypeIndicator::Queue,
            "QUEUE"@,
            queue.name@,
            "Type: "@ + queue.queue_type@,
            "Status: Available"@,
            "SQS Queue"@,
            if is_selected { colors.selected } else { colors.accent },
            *builder_colors,
        ),
        res.colors == *builder_colors,
        res.layout_style == LayoutStyle::Enhanced,
        !res.is_selected,
        !res.is_focused,
{
    let mut kind = "Type: ".to_owned();
    kind.append(queue.queue_type.as_str());
    let right_color = if is_selected { colors.selected } else { colors.accent };
    let b = ListItemBuilder::new(*builder_colors)
        .with_layout_style(LayoutStyle::Enhanced)
        .add_status_indicator(StatusIndicator::Available)
        .add_type_indicator(TypeIndicator::Queue)
        .add_primary_text(queue.name.clone())
        .add_visual_separator()
        .add_secondary_text(kind)
        .add_visual_separator()
        .add_secondary_text("Status: Available".to_owned())
        .add_right_aligned_text("SQS Queue".to_owned(), right_color);
    proof {
        reveal_strlit("QUEUE");
    }
    assert(part_views(b.content_parts@) =~= resource_entry_parts(
        StatusIndicator::Available,
        TypeIndicator::Queue,
        "QUEUE"@,
        queue.name@,
        "Type: "@ + queue.queue_type@,
        "Status: Available"@,
        "SQS Queue"@,
        right_color,
        *builder_colors,
    ));
    b
}

/// The detail lines of an RDS instance: identifier, engine, status, endpoint.
pub fn rds_detail_lines(instance: &RdsInstance) -> (res: (String, String, String, String))
    ensures
        res.0@ == "ID: "@ + instance.identifier@,
        res.1@ == "Engine: "@ + instance.engine@,
        res.2@ == "Status: "@ + instance.status@,
        res.3@ == "Endpoint: "@ + match instance.endpoint {
            Some(e) => e@,
            None => "N/A"@,
        },
{
    let mut id = "ID: ".to_owned();
    id.append(instance.identifier.as_str());
    let mut engine = "Engine: ".to_owned();
    engine.append(instance.engine.as_str());
    let mut status = "Status: ".to_owned();
    status.append(instance.status.as_str());
    let mut endpoint = "Endpoint: ".to_owned();
    match &instance.endpoint {
        Some(e) => endpoint.append(e.as_str()),
        None => endpoint.append("N/A"),
    }
    (id, engine, status, endpoint)
}

/// The detail lines of an SQS queue: name, type, URL.
pub fn sqs_detail_lines(queue: &SqsQueue) -> (res: (String, String, String))
    ensures
        res.0@ == "Name: "@ + queue.name@,
        res.1@ == "Type: "@ + queue.queue_type@,
        res.2@ == "URL: "@ + queue.url@,
{
    let mut name = "Name: ".to_owned();
    name.append(queue.name.as_str());
    let mut kind = "Type: ".to_owned();
    kind.append(queue.queue_type.as_str());
    let mut url = "URL: ".to_owned();
    url.append(queue.url.as_str());
    (name, kind, url)
}

/// A queue entry with its message count: "name (n messages)".
pub fn queue_text_with_count(queue_name: &str, message_count: u64) -> (res: String)
    ensures
        res@ == queue_name@ + " ("@ + spec_decimal(message_count as nat) + " messages)"@,
{
    let mut res = queue_name.to_owned();
    res.append(" (");
    res.append(decimal(message_count).as_str());
    res.append(" messages)");
    res
}

/// The colour of an instance status: green when available, red when stopped,
/// yellow otherwise.
pub open spec fn spec_status_color(status: Seq<char>) -> Color {
    if status == "available"@ {
        Color::Green
    } else if status == "stopped"@ {
        Color::Red
    } else {
        Color::Yellow
    }
}

/// The colour of an instance's status.
pub fn status_color_of(status: &str) -> (res: Color)
    ensures
        res == spec_status_color(status@),
{
    if str_eq(status, "available") {
        Color::Green
    } else if str_eq(status, "stopped") {
        Color::Red
    } else {
        Color::Yellow
    }
}

/// What the instance list panel shows.
#[derive(Debug, Clone, PartialEq, Eq)]
pub enum InstancePanel {
    /// The error message
    Error(String),
    /// The loading message
    Loading,
    /// The message that there are no instances
    Empty,
    /// The list of instances
    Instances,
}

/// What the instance list shows: an error before anything else, then loading,
/// then the empty message, then the instances.
pub fn instance_panel(app: &App) -> (res: InstancePanel)
    ensures
        match app.error_message {
            Some(m) => res matches InstancePanel::Error(e) && e@ == m@,
            None => res == (if app.loading {
                InstancePanel::Loading
            } else if app.instances@.len() == 0 {
                InstancePanel::Empty
            } else {
                InstancePanel::Instances
            }),
        },
{
    match &app.error_message {
        Some(m) => InstancePanel::Error(m.clone()),
        None => if app.loading {
            InstancePanel::Loading
        } else if app.get_current_instances().len() == 0 {
            InstancePanel::Empty
        } else {
            InstancePanel::Instances
        },
    }
}

/// The header and border titles of the instance list, naming the selected
/// service.
pub fn instance_list_titles(app: &App) -> (res: (String, String))
    ensures
        match app.selected_service {
            Some(s) => res.0@ == "AWS CloudWatch TUI - "@ + s.spec_short_name() + " Instances"@ && res.1@
                == s.spec_short_name() + " Instances"@,
            None => res.0@ == "AWS CloudWatch TUI - Instances"@ && res.1@ == "Instances"@,
        },
{
    match app.selected_service {
        Some(s) => {
            let mut main = "AWS CloudWatch TUI - ".to_owned();
            main.append(s.short_name());
            main.append(" Instances");
            let mut border = s.short_name().to_owned();
            border.append(" Instances");
            (main, border)
        },
        None => ("AWS CloudWatch TUI - Instances".to_owned(), "Instances".to_owned()),
    }
}

} // verus!
