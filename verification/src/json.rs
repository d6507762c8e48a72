//! Reading one member of a JSON object with serde_json.

use vstd::prelude::*;

verus! {

/// A member of a JSON object, as far as this crate reads members.
#[derive(Debug)]
pub enum JsonMember {
    /// The text is not an object, or has no member of that name.
    Absent,
    /// The member is `true` or `false`.
    Bool(bool),
    /// The member is a string with this text.
    Str(String),
    /// The member is a number, `null`, an array or an object.
    Other,
}

/// What a member is made of, its text by its view.
pub enum JsonMemberView {
    Absent,
    Bool(bool),
    Str(Seq<char>),
    Other,
}

impl View for JsonMember {
    type V = JsonMemberView;

    open spec fn view(&self) -> JsonMemberView {
        match self {
            JsonMember::Absent => JsonMemberView::Absent,
            JsonMember::Bool(b) => JsonMemberView::Bool(*b),
            JsonMember::Str(s) => JsonMemberView::Str(s@),
            JsonMember::Other => JsonMemberView::Other,
        }
    }
}

/// What serde_json makes of `text` when the member `key` of the JSON value
/// in it is looked up: the member, or the message of the parse error when
/// `text` is not JSON.
pub uninterp spec fn json_member(text: Seq<char>, key: Seq<char>) -> Result<JsonMemberView, Seq<char>>;

/// The view of a member lookup's result.
pub open spec fn member_result_view(r: Result<JsonMember, String>) -> Result<JsonMemberView, Seq<char>> {
    match r {
        Ok(m) => Ok(m@),
        Err(e) => Err(e@),
    }
}

/// Parses `text` with `serde_json::from_str` into a `serde_json::Value`
/// and looks up `key` with `Value::get`, telling the kinds of value apart;
/// a parse error is returned as its message. The answer depends on `text`
/// and `key` alone and is named `json_member`; nothing more is stated of it.
#[verifier::external_body]
pub fn read_json_member(text: &str, key: &str) -> (r: Result<JsonMember, String>)
    ensures
        member_result_view(r) == json_member(text@, key@),
{
    match serde_json::from_str::<serde_json::Value>(text) {
        Err(e) => Err(e.to_string()),
        Ok(v) => Ok(
            match v.get(key) {
                None => JsonMember::Absent,
                Some(serde_json::Value::Bool(b)) => JsonMember::Bool(*b),
                Some(serde_json::Value::String(s)) => JsonMember::Str(s.clone()),
                Some(_) => JsonMember::Other,
            },
        ),
    }
}

} // verus!
