//! The JSON documents of the faucet's answers, read with `serde_json`.
//!
//! What this file says of `serde_json` is taken on trust, not proved. A
//! document stays opaque: the library reads of it only its members by key, and
//! of a member only whether it is a string and which.

use vstd::prelude::*;

verus! {

/// `serde_json::Value`, a JSON document, carried through as it is.
#[verifier::external_type_specification]
#[verifier::external_body]
pub struct ExValue(serde_json::Value);

/// `serde_json::Error`, the reason a text is not a JSON document.
#[verifier::external_type_specification]
#[verifier::external_body]
pub struct ExError(serde_json::Error);

/// The members of a JSON document by key: the text of a member that is a
/// string, and `None` for a member of any other kind. A document that is not
/// an object has no members.
pub uninterp spec fn members(doc: serde_json::Value) -> Map<Seq<char>, Option<Seq<char>>>;

/// The members of the document that the bytes `body` spell, or `None` where
/// they spell no JSON document.
pub uninterp spec fn decoded(body: Seq<u8>) -> Option<Map<Seq<char>, Option<Seq<char>>>>;

/// What a document holds under one key.
#[derive(Clone, Debug, PartialEq, Eq)]
pub enum Member {
    /// The document has no member under the key.
    Absent,
    /// The member is a string with this text.
    Text(String),
    /// The member is something other than a string.
    Other,
}

/// What a document holds under one key, as a mathematical value.
pub ghost enum MemberView {
    Absent,
    Text(Seq<char>),
    Other,
}

impl View for Member {
    type V = MemberView;

    open spec fn view(&self) -> MemberView {
        match self {
            Member::Absent => MemberView::Absent,
            Member::Text(s) => MemberView::Text(s@),
            Member::Other => MemberView::Other,
        }
    }
}

/// What the members `m` hold under `key`.
pub open spec fn member_at(m: Map<Seq<char>, Option<Seq<char>>>, key: Seq<char>) -> MemberView {
    if !m.contains_key(key) {
        MemberView::Absent
    } else {
        match m[key] {
            Some(text) => MemberView::Text(text),
            None => MemberView::Other,
        }
    }
}

/// `serde_json::from_slice`, reading a `serde_json::Value`. It fails exactly
/// on the bytes that spell no JSON document, and the document it returns is
/// determined by the bytes.
#[verifier::external_body]
pub(crate) fn decode(body: &[u8]) -> (r: Result<serde_json::Value, serde_json::Error>)
    ensures
        match r {
            Ok(doc) => decoded(body@) == Some(members(doc)),
            Err(_) => decoded(body@) is None,
        },
{
    serde_json::from_slice::<serde_json::Value>(body)
}

/// `serde_json::Value::get` with a string key. It finds a member only in an
/// object that has the key; the member found is handed out as its text where
/// it is a string.
#[verifier::external_body]
pub(crate) fn member(doc: &serde_json::Value, key: &str) -> (r: Member)
    ensures
        r@ == member_at(members(*doc), key@),
{
    match doc.get(key) {
        None => Member::Absent,
        Some(serde_json::Value::String(text)) => Member::Text(text.clone()),
        Some(_) => Member::Other,
    }
}

} // verus!
