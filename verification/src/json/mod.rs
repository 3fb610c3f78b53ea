//! Reading JSON documents through `serde_json`.
//!
//! The parser itself is not verified. This module declares the outside type
//! that crosses the boundary, names what a parsed document holds, and
//! wraps the two outside functions that the crate calls. Everything that is
//! decided from a document is decided elsewhere, in verified code.
use vstd::prelude::*;

verus! {

/// A parsed JSON document of `serde_json`, carried through as an opaque value.
#[verifier::external_type_specification]
#[verifier::external_body]
pub struct ExValue(serde_json::Value);

/// What one member of a JSON object holds, as far as this crate reads it:
/// `null`, a string, or anything else.
#[derive(Debug, Clone, PartialEq, Eq)]
pub enum Member {
    Null,
    Text(String),
    Other,
}

/// The mathematical counterpart of [`Member`].
pub enum MemberModel {
    Null,
    Text(Seq<char>),
    Other,
}

impl View for Member {
    type V = MemberModel;

    open spec fn view(&self) -> MemberModel {
        match self {
            Member::Null => MemberModel::Null,
            Member::Text(text) => MemberModel::Text(text@),
            Member::Other => MemberModel::Other,
        }
    }
}

/// The members of a parsed document: for a JSON object, each key with what
/// it holds; for any other document, nothing.
pub uninterp spec fn document_members(document: serde_json::Value) -> Map<Seq<char>, MemberModel>;

/// The members of the document that a text parses to as JSON, or `None`
/// where the text is not one JSON document.
pub uninterp spec fn json_members(text: Seq<char>) -> Option<Map<Seq<char>, MemberModel>>;

/// What a set of members holds under a key.
pub open spec fn member_at(members: Map<Seq<char>, MemberModel>, key: Seq<char>) -> Option<
    MemberModel,
> {
    if members.dom().contains(key) {
        Some(members[key])
    } else {
        None
    }
}

/// The view of an optional member.
pub open spec fn member_view(member: Option<Member>) -> Option<MemberModel> {
    match member {
        Some(m) => Some(m@),
        None => None,
    }
}

/// Calls `serde_json::from_str` at type `serde_json::Value` and drops the
/// parser's error.
///
/// Trusted: the outcome is a function of the text alone. On success the
/// members of the returned document are the ones that `json_members` names
/// for the text; on failure `json_members` names none.
#[verifier::external_body]
pub(crate) fn parse_document(text: &str) -> (parsed: Option<serde_json::Value>)
    ensures
        match parsed {
            Some(document) => json_members(text@) == Some(document_members(document)),
            None => json_members(text@) is None,
        },
{
    serde_json::from_str::<serde_json::Value>(text).ok()
}

/// Calls `serde_json::Value::get` with a string key.
///
/// Trusted: the result is `None` where the document is not an object or has
/// no member under the key, and otherwise tells which of `null`, a string or
/// something else the member holds, with the string's text.
#[verifier::external_body]
pub(crate) fn member(document: &serde_json::Value, key: &str) -> (found: Option<Member>)
    ensures
        member_view(found) == member_at(document_members(*document), key@),
{
    match document.get(key) {
        None => None,
        Some(serde_json::Value::Null) => Some(Member::Null),
        Some(serde_json::Value::String(text)) => Some(Member::Text(text.clone())),
        Some(_) => Some(Member::Other),
    }
}

} // verus!
