//! The details of an RDS instance above its metrics.
use vstd::prelude::*;
use crate::components::list_styling::{span_views, SpanView, StyledSpan};
use crate::models::RdsInstance;
use crate::style::Color;
use crate::components::instance::{spec_status_color, status_color_of};

verus! {

broadcast use vstd::string::group_string_axioms;

/// The lines of the instance information: engine, status and class on the
/// first, the endpoint ("N/A" when unknown) on the second, each value after its
/// white label.
pub open spec fn info_lines(instance: RdsInstance) -> Seq<Seq<SpanView>> {
    seq![
        seq![
            ("Engine: "@, Some(Color::White), false),
            (instance.engine@, Some(Color::Green), false),
            ("  "@, None, false),
            ("Status: "@, Some(Color::White), false),
            (instance.status@, Some(spec_status_color(instance.status@)), false),
            ("  "@, None, false),
            ("Class: "@, Some(Color::White), false),
            (instance.instance_class@, Some(Color::Cyan), false),
        ],
        seq![
            ("Endpoint: "@, Some(Color::White), false),
            (match instance.endpoint {
                Some(e) => e@,
                None => "N/A"@,
            }, Some(Color::Gray), false),
        ],
    ]
}

fn span(text: &str, color: Option<Color>) -> (res: StyledSpan)
    ensures
        res.text@ == text@,
        res.color == color,
        !res.bold,
{
    StyledSpan { text: text.to_owned(), color, bold: false }
}

/// The lines of the instance information.
pub fn instance_info_lines(instance: &RdsInstance) -> (res: Vec<Vec<StyledSpan>>)
    ensures
        res@.len() == 2,
        span_views(res@[0]@) == info_lines(*instance)[0],
        span_views(res@[1]@) == info_lines(*instance)[1],
{
    let first = vec![
        span("Engine: ", Some(Color::White)),
        span(instance.engine.as_str(), Some(Color::Green)),
        span("  ", None),
        span("Status: ", Some(Color::White)),
        span(instance.status.as_str(), Some(status_color_of(instance.status.as_str()))),
        span("  ", None),
        span("Class: ", Some(Color::White)),
        span(instance.instance_class.as_str(), Some(Color::Cyan)),
    ];
    let endpoint = match &instance.endpoint {
        Some(e) => e.as_str(),
        None => "N/A",
    };
    let second = vec![span("Endpoint: ", Some(Color::White)), span(endpoint, Some(Color::Gray))];
    assert(span_views(first@) =~= info_lines(*instance)[0]);
    assert(span_views(second@) =~= info_lines(*instance)[1]);
    vec![first, second]
}

} // verus!
