//! Reading the two members of an action out of a JSON document, done by
//! `serde_json`.

use crate::text::option_view;
use vstd::prelude::*;

verus! {

/// Two members read out of a JSON document.
pub struct Members {
    /// The content of the string under the first key: `None` where the
    /// document is not an object, has no such member, or has one that is
    /// not a string.
    pub name: Option<Seq<char>>,
    /// The compact JSON writing of the value under the second key: `None`
    /// where the document is not an object or has no such member.
    pub payload: Option<Seq<char>>,
}

/// What `serde_json` reads out of `text` under the keys `name_key` and
/// `payload_key`; `None` where `text` is not one JSON document.
pub uninterp spec fn json_members(
    text: Seq<char>,
    name_key: Seq<char>,
    payload_key: Seq<char>,
) -> Option<Members>;

/// Parses `text` once with `serde_json::from_str` into a
/// `serde_json::Value`, looks both keys up with `Value::get`, reads the
/// first member as a string with `Value::as_str` and writes the second
/// out with the value's `to_string`. The contract claims only that the
/// outcome is a function of the three texts, which it calls
/// `json_members`.
#[verifier::external_body]
pub(crate) fn read_members(text: &str, name_key: &str, payload_key: &str) -> (members: Option<
    (Option<String>, Option<String>),
>)
    ensures
        match members {
            Some((name, payload)) => json_members(text@, name_key@, payload_key@) == Some(
                Members { name: option_view(name), payload: option_view(payload) },
            ),
            None => json_members(text@, name_key@, payload_key@) is None,
        },
{
    let document = serde_json::from_str::<serde_json::Value>(text).ok()?;
    let name = document.get(name_key).and_then(|v| v.as_str()).map(|s| s.to_string());
    let payload = document.get(payload_key).map(|v| v.to_string());
    Some((name, payload))
}

} // verus!
