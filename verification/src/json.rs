//! Reading a line as a JSON document and looking up its members.

use vstd::prelude::*;

verus! {

/// serde_json's `Value`, a parsed JSON document. Nothing of its inside is
/// known here: it is carried from [`parse_document`] to [`member`].
#[verifier::external_type_specification]
#[verifier::external_body]
pub struct ExValue(serde_json::Value);

/// serde_json's `Error`. Nothing of its inside is known here.
#[verifier::external_type_specification]
#[verifier::external_body]
pub struct ExError(serde_json::Error);

/// What the logic reads of one member of a document.
#[derive(Clone, Debug, PartialEq, Eq)]
pub enum Member {
    /// The document has no such member, or its value is `null`.
    Absent,
    /// The member's value is a string.
    Text(String),
    /// The member's value is anything else.
    Other,
}

/// A [`Member`] as a mathematical value.
pub enum MemberView {
    Absent,
    Text(Seq<char>),
    Other,
}

impl View for Member {
    type V = MemberView;

    open spec fn view(&self) -> MemberView {
        match self {
            Member::Absent => MemberView::Absent,
            Member::Text(text) => MemberView::Text(text@),
            Member::Other => MemberView::Other,
        }
    }
}

/// The members of a document by key, as far as the logic reads them: the
/// text of each member whose value is a string, `None` for a member with a
/// value of another kind.
pub type Members = Map<Seq<char>, Option<Seq<char>>>;

/// The members of `doc` whose value is not `null`, by key, where `doc` is
/// an object; no members where it is anything else. A member whose value is
/// a string stands with its text, any other with `None`.
pub uninterp spec fn members(doc: serde_json::Value) -> Map<Seq<char>, Option<Seq<char>>>;

/// The [`members`] of the document that `serde_json::from_str` reads from
/// `text`; `None` where it reports an error.
pub uninterp spec fn json_members(text: Seq<char>) -> Option<Map<Seq<char>, Option<Seq<char>>>>;

/// What stands under `key` among `all`.
pub open spec fn member_at(all: Members, key: Seq<char>) -> MemberView {
    if !all.contains_key(key) {
        MemberView::Absent
    } else {
        match all[key] {
            Some(text) => MemberView::Text(text),
            None => MemberView::Other,
        }
    }
}

/// Calls `serde_json::from_str` for a `Value`, which reads the whole of
/// `text` as one JSON document or reports an error. The contract gives the
/// outcome its name and claims no more of it: [`json_members`] of the text is
/// the [`members`] of the document that came back, and `None` where an error
/// came back.
#[verifier::external_body]
pub(crate) fn parse_document(text: &str) -> (r: Result<serde_json::Value, serde_json::Error>)
    ensures
        match r {
            Ok(doc) => json_members(text@) == Some(members(doc)),
            Err(_) => json_members(text@) is None,
        },
{
    serde_json::from_str::<serde_json::Value>(text)
}

/// Indexes `doc` by `key` with `Value`'s `Index`, which for a string key
/// yields the member's value where `doc` is an object that has the key, and
/// `null` in every other case. The variants of what it yields are told
/// apart: `null` is `Absent`, a string is `Text` with a copy of its text,
/// anything else is `Other`. The contract says so over [`members`].
#[verifier::external_body]
pub(crate) fn member(doc: &serde_json::Value, key: &str) -> (r: Member)
    ensures
        r@ == member_at(members(*doc), key@),
{
    match &doc[key] {
        serde_json::Value::Null => Member::Absent,
        serde_json::Value::String(text) => Member::Text(text.clone()),
        _ => Member::Other,
    }
}

} // verus!
