//! JSON objects, as far as a partial update of a permission reads them.

use vstd::prelude::*;

verus! {

/// `serde_json::Map`, declared so that it can stand in signatures. Nothing
/// is known of what is inside but through [`members`].
#[verifier::external_type_specification]
#[verifier::external_body]
#[verifier::reject_recursive_types(K)]
#[verifier::reject_recursive_types(V)]
pub struct ExObject<K, V>(serde_json::Map<K, V>);

/// `serde_json::Value`, declared so that it can stand in signatures.
/// Nothing is known of what is inside.
#[verifier::external_type_specification]
#[verifier::external_body]
pub struct ExValue(serde_json::Value);

/// What a partial update reads of one member of a JSON object.
#[derive(Debug)]
pub enum Member {
    /// JSON `null`.
    Null,
    /// A JSON string.
    Text(String),
    /// A JSON number: its value as an `i64`, and its value as a `u64`,
    /// each where the number is an integer that fits.
    Number(Option<i64>, Option<u64>),
    /// A boolean, an array or an object.
    Other,
}

/// What a `Member` says.
pub enum MemberView {
    Null,
    Text(Seq<char>),
    Number(Option<i64>, Option<u64>),
    Other,
}

impl View for Member {
    type V = MemberView;

    open spec fn view(&self) -> MemberView {
        match *self {
            Member::Null => MemberView::Null,
            Member::Text(s) => MemberView::Text(s@),
            Member::Number(i, u) => MemberView::Number(i, u),
            Member::Other => MemberView::Other,
        }
    }
}

/// The members of a JSON object, by key: what a `serde_json::Map` holds,
/// each value read as a [`Member`]. Only [`take_member`] says anything of
/// it.
pub uninterp spec fn members(obj: serde_json::Map<String, serde_json::Value>) -> Map<
    Seq<char>,
    MemberView,
>;

/// The member under a key, if the object has one.
pub open spec fn member_at(m: Map<Seq<char>, MemberView>, key: Seq<char>) -> Option<MemberView> {
    if m.contains_key(key) {
        Some(m[key])
    } else {
        None
    }
}

/// Takes the member under `key` out of the object, with
/// `serde_json::Map::remove`, and reads a number with
/// `serde_json::Number::as_i64` and `serde_json::Number::as_u64`.
///
/// Not proved, but taken from `serde_json`: the result is the member that
/// the object held under `key`, if it held one, and afterwards the object
/// holds its other members as before.
#[verifier::external_body]
pub(crate) fn take_member(obj: &mut serde_json::Map<String, serde_json::Value>, key: &str) -> (r:
    Option<Member>)
    ensures
        match r {
            Some(m) => members(*old(obj)).contains_key(key@) && members(*old(obj))[key@] == m@,
            None => !members(*old(obj)).contains_key(key@),
        },
        members(*final(obj)) == members(*old(obj)).remove(key@),
{
    match obj.remove(key) {
        None => None,
        Some(serde_json::Value::Null) => Some(Member::Null),
        Some(serde_json::Value::String(s)) => Some(Member::Text(s)),
        Some(serde_json::Value::Number(n)) => Some(Member::Number(n.as_i64(), n.as_u64())),
        Some(serde_json::Value::Bool(_)) => Some(Member::Other),
        Some(serde_json::Value::Array(_)) => Some(Member::Other),
        Some(serde_json::Value::Object(_)) => Some(Member::Other),
    }
}

} // verus!
