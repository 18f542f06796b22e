//! Classification of the lines the worker writes to its standard error: a
//! structured progress event, or a plain diagnostic line.
use vstd::prelude::*;

use crate::protocol::ProgressEvent;
use serde_json::Value;

verus! {

/// The event tag of a standard-error line: present when the line parses as
/// JSON whose `event` member is a string.
pub uninterp spec fn event_tag_of(line: Seq<char>) -> Option<Seq<char>>;

/// Relies on serde_json::from_str into a `Value`, `Value::get` and
/// `Value::as_str`: the line's `event` member when the line is JSON and that
/// member is a string, with its `data` member when there is one.
#[verifier::external_body]
fn parse_event(line: &str) -> (r: Option<(String, Option<Value>)>)
    ensures
        r is Some <==> event_tag_of(line@) is Some,
        r matches Some((tag, _)) ==> tag@ == event_tag_of(line@)->0,
{
    let v: Value = serde_json::from_str(line).ok()?;
    let event = v.get("event")?.as_str()?.to_string();
    Some((event, v.get("data").cloned()))
}

/// The event of a parsed line; an event without data carries null.
fn event_of(parsed: Option<(String, Option<Value>)>) -> (r: Option<ProgressEvent>)
    ensures
        r is Some <==> parsed is Some,
        r matches Some(e) ==> parsed matches Some((tag, d)) && e.event == tag && (d matches Some(
            v,
        ) ==> e.data == v),
{
    match parsed {
        Some((event, Some(data))) => Some(ProgressEvent { event, data }),
        Some((event, None)) => Some(ProgressEvent { event, data: Value::default() }),
        None => None,
    }
}

/// Where a standard-error line goes.
#[derive(Debug, Clone)]
pub enum SinkEntry {
    /// A structured event, for the observers of progress.
    Event(ProgressEvent),
    /// Unstructured text, recorded as a diagnostic.
    Diagnostic(String),
}

/// Routes `line` given what parsing it as an event gave: an event when it
/// parsed, the line itself as a diagnostic when it did not.
pub fn classify_stderr_line(line: String, parsed: Option<ProgressEvent>) -> (r: SinkEntry)
    ensures
        match parsed {
            Some(e) => r == SinkEntry::Event(e),
            None => r == SinkEntry::Diagnostic(line),
        },
{
    match parsed {
        Some(e) => SinkEntry::Event(e),
        None => SinkEntry::Diagnostic(line),
    }
}

/// Routes one line of the worker's standard error. Never fails: a line
/// that is not an event is a diagnostic.
pub fn route_stderr_line(line: String) -> (r: SinkEntry)
    ensures
        match event_tag_of(line@) {
            Some(tag) => r matches SinkEntry::Event(e) && e.event@ == tag,
            None => r == SinkEntry::Diagnostic(line),
        },
{
    let parsed = event_of(parse_event(line.as_str()));
    classify_stderr_line(line, parsed)
}

} // verus!
