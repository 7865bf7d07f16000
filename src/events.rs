//! The cells of one event's row in the events table.

use vstd::prelude::*;

verus! {

/// One table row: source component, type, message, involved object, first
/// and last time seen.
#[derive(Clone, Debug, PartialEq, Eq)]
pub struct EventRow {
    pub source: String,
    pub event_type: String,
    pub message: String,
    pub involved_object: String,
    pub first_seen: String,
    pub last_seen: String,
}

/// A cell's text, or the placeholder where the value is absent.
pub open spec fn cell_or(value: Option<String>, placeholder: Seq<char>) -> Seq<char> {
    match value {
        Some(v) => v@,
        None => placeholder,
    }
}

fn text_or(value: Option<String>, placeholder: &str) -> (r: String)
    ensures
        r@ == cell_or(value, placeholder@),
{
    match value {
        Some(v) => v,
        None => String::from_str(placeholder),
    }
}

impl EventRow {
    /// Lays out an event: an absent source component, type or time is shown
    /// as `-`, an absent message as `N/A`. `source` is the event's source,
    /// where it has one, with its optional component.
    pub fn from_event(
        source: Option<Option<String>>,
        event_type: Option<String>,
        message: Option<String>,
        involved_object: String,
        first_seen: Option<String>,
        last_seen: Option<String>,
    ) -> (r: EventRow)
        ensures
            r.source@ == match source {
                Some(component) => cell_or(component, "-"@),
                None => "-"@,
            },
            r.event_type@ == cell_or(event_type, "-"@),
            r.message@ == cell_or(message, "N/A"@),
            r.involved_object == involved_object,
            r.first_seen@ == cell_or(first_seen, "-"@),
            r.last_seen@ == cell_or(last_seen, "-"@),
    {
        let source = match source {
            Some(component) => text_or(component, "-"),
            None => String::from_str("-"),
        };
        EventRow {
            source,
            event_type: text_or(event_type, "-"),
            message: text_or(message, "N/A"),
            involved_object,
            first_seen: text_or(first_seen, "-"),
            last_seen: text_or(last_seen, "-"),
        }
    }
}

} // verus!
