//! Pages of market events, and the reading of one response body.
//!
//! An event is an opaque JSON object: the walk never looks inside one, it
//! only moves events, in order, from each fetched page into the
//! accumulator. JSON parsing and serialization are serde_json's work,
//! reached through the trusted items below; everything around those calls
//! is verified.

use vstd::prelude::*;

use crate::query::opt_view;

verus! {

/// serde_json's JSON tree, held opaquely: one event is one such value.
#[verifier::external_type_specification]
#[verifier::external_body]
pub struct ExValue(serde_json::Value);

/// The JSON text that serde_json renders a list of events to, as one
/// array. It depends on the events alone.
pub uninterp spec fn json_array_text(events: Seq<serde_json::Value>) -> Seq<char>;

/// Whether serde_json parses the text as JSON. It depends on the text
/// alone.
pub uninterp spec fn json_ok(s: Seq<char>) -> bool;

/// The JSON value serde_json parses the text to, when it parses. It
/// depends on the text alone.
pub uninterp spec fn json_value_of(s: Seq<char>) -> serde_json::Value;

/// The named field of a JSON value, when the value is an object carrying
/// that field.
pub uninterp spec fn field_of(v: serde_json::Value, key: Seq<char>) -> Option<serde_json::Value>;

/// The elements of a JSON value, when it is an array.
pub uninterp spec fn elements_of(v: serde_json::Value) -> Option<Seq<serde_json::Value>>;

/// The text of a JSON value, when it is a string.
pub uninterp spec fn text_of(v: serde_json::Value) -> Option<Seq<char>>;

/// The value behind an optional borrow.
pub open spec fn opt_val(r: Option<&serde_json::Value>) -> Option<serde_json::Value> {
    match r {
        Some(v) => Some(*v),
        None => None,
    }
}

/// Relies on serde_json::from_str: reads the body as one JSON value —
/// `json_value_of` the body — and yields nothing exactly when the body is
/// not valid JSON.
#[verifier::external_body]
fn parse_json(s: &str) -> (r: Option<serde_json::Value>)
    ensures
        r is Some <==> json_ok(s@),
        r matches Some(v) ==> v == json_value_of(s@),
{
    serde_json::from_str::<serde_json::Value>(s).ok()
}

/// Relies on serde_json::Value::get: the named field of the value —
/// `field_of` — when the value is an object carrying that field, and
/// nothing otherwise.
#[verifier::external_body]
fn json_get<'a>(v: &'a serde_json::Value, key: &str) -> (r: Option<&'a serde_json::Value>)
    ensures
        opt_val(r) == field_of(*v, key@),
{
    v.get(key)
}

/// Relies on serde_json::Value::as_array: the value's elements —
/// `elements_of` — when it is an array, and nothing otherwise.
#[verifier::external_body]
fn json_as_array<'a>(v: &'a serde_json::Value) -> (r: Option<&'a Vec<serde_json::Value>>)
    ensures
        match r {
            Some(arr) => elements_of(*v) == Some(arr@),
            None => elements_of(*v) is None,
        },
{
    v.as_array()
}

/// Relies on serde_json::Value::as_str: the value's text — `text_of` —
/// when it is a string, and nothing otherwise.
#[verifier::external_body]
fn json_as_str<'a>(v: &'a serde_json::Value) -> (r: Option<&'a str>)
    ensures
        match r {
            Some(s) => text_of(*v) == Some(s@),
            None => text_of(*v) is None,
        },
{
    v.as_str()
}

/// Relies on serde_json::Value::clone: the copy is the same value.
#[verifier::external_body]
fn json_clone(v: &serde_json::Value) -> (r: serde_json::Value)
    ensures
        r == *v,
{
    v.clone()
}

/// Relies on serde_json::to_string: renders the events as one JSON array.
/// On `Value` trees serialization cannot fail: their maps have string
/// keys, and their `Serialize` never errors.
#[verifier::external_body]
pub(crate) fn render_events(events: &Vec<serde_json::Value>) -> (r: String)
    ensures
        r@ == json_array_text(events@),
{
    match serde_json::to_string(events) {
        Ok(s) => s,
        Err(_) => String::new(),
    }
}

/// One fetched page: its events in the order the response gave them, and
/// the continuation cursor, when the response carried one.
pub struct Page {
    pub events: Vec<serde_json::Value>,
    pub next: Option<String>,
}

/// True when the page points at a further page: a present, non-empty
/// cursor.
pub open spec fn spec_has_more(next: Option<Seq<char>>) -> bool {
    match next {
        Some(c) => c.len() > 0,
        None => false,
    }
}

/// The events a parsed body yields: the `asset_events` field's elements
/// when that field is present and an array, and an empty page otherwise.
pub open spec fn events_of_body(v: serde_json::Value) -> Seq<serde_json::Value> {
    match field_of(v, "asset_events"@) {
        Some(f) => match elements_of(f) {
            Some(es) => es,
            None => Seq::empty(),
        },
        None => Seq::empty(),
    }
}

/// The cursor a parsed body yields: the `next` field's text when that
/// field is present and a string, and no cursor otherwise.
pub open spec fn next_of_body(v: serde_json::Value) -> Option<Seq<char>> {
    match field_of(v, "next"@) {
        Some(f) => text_of(f),
        None => None,
    }
}

/// Copies a borrowed list of JSON values, element for element, in order.
fn clone_values(vs: &Vec<serde_json::Value>) -> (r: Vec<serde_json::Value>)
    ensures
        r@ == vs@,
{
    let mut out: Vec<serde_json::Value> = Vec::new();
    let n = vs.len();
    for i in 0..n
        invariant
            n == vs@.len(),
            out@ =~= vs@.subrange(0, i as int),
    {
        out.push(json_clone(&vs[i]));
        proof {
            assert(vs@.subrange(0, i + 1) =~= vs@.subrange(0, i as int).push(vs@[i as int]));
        }
    }
    proof {
        assert(vs@.subrange(0, n as int) =~= vs@);
    }
    out
}

/// Reads one response body as a page. A body that is not valid JSON
/// yields `None` (a terminal failure for that fetch). Of a valid body,
/// the `asset_events` field gives the events when it is an array, and an
/// empty page otherwise; the `next` field gives the cursor when it is a
/// string, and no cursor otherwise.
pub fn parse_page(body: &str) -> (r: Option<Page>)
    ensures
        r is Some <==> json_ok(body@),
        r matches Some(p) ==> {
            &&& p.events@ == events_of_body(json_value_of(body@))
            &&& opt_view(p.next) == next_of_body(json_value_of(body@))
        },
{
    let parsed: serde_json::Value = match parse_json(body) {
        Some(v) => v,
        None => {
            return None;
        },
    };
    let events: Vec<serde_json::Value> = match json_get(&parsed, "asset_events") {
        Some(field) => match json_as_array(field) {
            Some(arr) => clone_values(arr),
            None => Vec::new(),
        },
        None => Vec::new(),
    };
    let next: Option<String> = match json_get(&parsed, "next") {
        Some(field) => match json_as_str(field) {
            Some(s) => Some(s.to_owned()),
            None => None,
        },
        None => None,
    };
    Some(Page { events, next })
}

} // verus!
