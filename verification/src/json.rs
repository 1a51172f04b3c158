//! Reading fields out of JSON documents (webhook payloads and API replies).
//!
//! Parsing is done by `serde_json`; what it returns is named by the
//! uninterpreted functions below.
use vstd::prelude::*;

verus! {

/// One step into a JSON value: an object member or an array element,
/// as `serde_json::Value` indexing with `[key]` or `[index]`.
pub enum JsonStep<'a> {
    Key(&'a str),
    Index(usize),
}

/// The mathematical content of a [`JsonStep`].
pub enum JsonStepView {
    Key(Seq<char>),
    Index(nat),
}

impl<'a> View for JsonStep<'a> {
    type V = JsonStepView;

    open spec fn view(&self) -> JsonStepView {
        match self {
            JsonStep::Key(k) => JsonStepView::Key(k@),
            JsonStep::Index(i) => JsonStepView::Index(*i as nat),
        }
    }
}

/// The contents of a path of steps.
pub open spec fn path_view(path: Seq<JsonStep>) -> Seq<JsonStepView> {
    path.map_values(|s: JsonStep| s@)
}

/// The contents of an optional string.
pub open spec fn opt_str_view(o: Option<String>) -> Option<Seq<char>> {
    match o {
        Some(s) => Some(s@),
        None => None,
    }
}

/// Whether `serde_json` parses the bytes `text` as one JSON value.
pub uninterp spec fn spec_json_valid(text: Seq<u8>) -> bool;

/// The string found in the JSON document `text` by following `path`, if the
/// document parses and a string stands there.
pub uninterp spec fn spec_json_str_at(text: Seq<u8>, path: Seq<JsonStepView>) -> Option<Seq<char>>;

/// The boolean found in the JSON document `text` by following `path`, if the
/// document parses and a boolean stands there.
pub uninterp spec fn spec_json_bool_at(text: Seq<u8>, path: Seq<JsonStepView>) -> Option<bool>;

/// The integer found in the JSON document `text` by following `path`, if the
/// document parses and a number representable as `i64` stands there.
pub uninterp spec fn spec_json_i64_at(text: Seq<u8>, path: Seq<JsonStepView>) -> Option<i64>;

/// Calls `serde_json::from_slice::<serde_json::Value>` and reports whether it
/// succeeded. The contract claims only that the result is the named value.
#[verifier::external_body]
pub(crate) fn json_is_valid(text: &[u8]) -> (res: bool)
    ensures
        res == spec_json_valid(text@),
{
    serde_json::from_slice::<serde_json::Value>(text).is_ok()
}

/// Parses `text` with `serde_json::from_slice`, follows `path` with
/// `serde_json::Value` indexing and reads the string there with `as_str`.
/// The contract claims that the result is the named value, and that an
/// unparsable document yields `None`.
#[verifier::external_body]
pub(crate) fn json_str_at(text: &[u8], path: &Vec<JsonStep>) -> (res: Option<String>)
    ensures
        opt_str_view(res) == spec_json_str_at(text@, path_view(path@)),
        !spec_json_valid(text@) ==> res is None,
{
    let value: serde_json::Value = match serde_json::from_slice(text) {
        Ok(v) => v,
        Err(_) => return None,
    };
    let mut cur = &value;
    for step in path.iter() {
        cur = match step {
            JsonStep::Key(k) => &cur[*k],
            JsonStep::Index(i) => &cur[*i],
        };
    }
    cur.as_str().map(String::from)
}

/// Parses `text` with `serde_json::from_slice`, follows `path` with
/// `serde_json::Value` indexing and reads the boolean there with `as_bool`.
/// The contract claims that the result is the named value, and that an
/// unparsable document yields `None`.
#[verifier::external_body]
pub(crate) fn json_bool_at(text: &[u8], path: &Vec<JsonStep>) -> (res: Option<bool>)
    ensures
        res == spec_json_bool_at(text@, path_view(path@)),
        !spec_json_valid(text@) ==> res is None,
{
    let value: serde_json::Value = match serde_json::from_slice(text) {
        Ok(v) => v,
        Err(_) => return None,
    };
    let mut cur = &value;
    for step in path.iter() {
        cur = match step {
            JsonStep::Key(k) => &cur[*k],
            JsonStep::Index(i) => &cur[*i],
        };
    }
    cur.as_bool()
}

/// Parses `text` with `serde_json::from_slice`, follows `path` with
/// `serde_json::Value` indexing and reads the integer there with `as_i64`.
/// The contract claims that the result is the named value, and that an
/// unparsable document yields `None`.
#[verifier::external_body]
pub(crate) fn json_i64_at(text: &[u8], path: &Vec<JsonStep>) -> (res: Option<i64>)
    ensures
        res == spec_json_i64_at(text@, path_view(path@)),
        !spec_json_valid(text@) ==> res is None,
{
    let value: serde_json::Value = match serde_json::from_slice(text) {
        Ok(v) => v,
        Err(_) => return None,
    };
    let mut cur = &value;
    for step in path.iter() {
        cur = match step {
            JsonStep::Key(k) => &cur[*k],
            JsonStep::Index(i) => &cur[*i],
        };
    }
    cur.as_i64()
}

} // verus!
