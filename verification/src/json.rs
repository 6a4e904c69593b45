//! JSON documents, as far as their members and texts are read.
//!
//! Reading is `serde_json`'s. What is believed of it stands here.

use serde_json::Value;
use vstd::prelude::*;

use crate::text::text_of;

verus! {

/// A `serde_json` value.
#[verifier::external_type_specification]
#[verifier::external_body]
pub struct ExValue(serde_json::Value);

/// What a JSON value holds, by path. A path is a row of member names, each that of
/// a member of the object which the names before it lead to; the empty path leads
/// to the value itself. Every path that leads to a value is in the map, with the
/// text of that value where it is a string, and with `None` where it is anything
/// else. Arrays have no members.
pub uninterp spec fn json_content(value: serde_json::Value) -> Map<Seq<Seq<char>>, Option<Seq<char>>>;

/// What the JSON document `text` holds, by path, or `None` where `text` is not read
/// as a JSON document.
pub uninterp spec fn json_document(text: Seq<char>) -> Option<Map<Seq<Seq<char>>, Option<Seq<char>>>>;

/// Whether a value with this content is an object that has the member `name`.
pub open spec fn has_member(
    content: Map<Seq<Seq<char>>, Option<Seq<char>>>,
    name: Seq<char>,
) -> bool {
    content.contains_key(seq![name])
}

/// The content of the member `name`.
pub open spec fn member_content(
    content: Map<Seq<Seq<char>>, Option<Seq<char>>>,
    name: Seq<char>,
) -> Map<Seq<Seq<char>>, Option<Seq<char>>> {
    Map::new(
        |path: Seq<Seq<char>>| content.contains_key(seq![name] + path),
        |path: Seq<Seq<char>>| content[seq![name] + path],
    )
}

/// The text of the member `name`, if there is such a member and it is a string.
pub open spec fn member_text(
    content: Map<Seq<Seq<char>>, Option<Seq<char>>>,
    name: Seq<char>,
) -> Option<Seq<char>> {
    if has_member(content, name) {
        content[seq![name]]
    } else {
        None
    }
}

/// Calls `serde_json::from_str::<Value>`, and drops what it says of an error.
///
/// Believed of it: whether it succeeds, and with what, depends on the text alone.
/// Which texts are documents, and what they hold, is left unsaid.
#[verifier::external_body]
pub(crate) fn parse_document(text: &str) -> (document: Option<Value>)
    ensures
        match document {
            Some(value) => json_document(text@) == Some(json_content(value)),
            None => json_document(text@) is None,
        },
{
    serde_json::from_str::<Value>(text).ok()
}

/// Calls `Value::get` with a member name.
///
/// Believed of it: it returns the member of that name where the value is an object
/// that has one, and `None` otherwise.
#[verifier::external_body]
pub(crate) fn member<'a>(value: &'a Value, name: &str) -> (found: Option<&'a Value>)
    ensures
        match found {
            Some(child) => {
                &&& has_member(json_content(*value), name@)
                &&& json_content(*child) == member_content(json_content(*value), name@)
            },
            None => !has_member(json_content(*value), name@),
        },
{
    value.get(name)
}

/// Calls `Value::as_str`.
///
/// Believed of it: it returns the text of a string, and `None` for any other value.
#[verifier::external_body]
pub(crate) fn string_value<'a>(value: &'a Value) -> (text: Option<&'a str>)
    ensures
        match text {
            Some(text) => json_content(*value)[Seq::empty()] == Some(text@),
            None => json_content(*value)[Seq::empty()] is None,
        },
{
    value.as_str()
}

/// The text of the member `name`, if there is such a member and it is a string.
pub(crate) fn text_member(value: &Value, name: &str) -> (text: Option<String>)
    ensures
        text_of(text) == member_text(json_content(*value), name@),
{
    match member(value, name) {
        Some(child) => {
            assert(seq![name@] + Seq::<Seq<char>>::empty() =~= seq![name@]);
            match string_value(child) {
                Some(text) => Some(text.to_owned()),
                None => None,
            }
        },
        None => None,
    }
}

} // verus!
