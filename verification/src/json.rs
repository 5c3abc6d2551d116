//! Reading the JSON that the model answers with.
//!
//! The model is asked for a JSON object but answers with free text. The
//! object is looked for between the first `{` and the last `}` of the answer;
//! the text between them is handed to `serde_json`, and of what comes back
//! only the top level is kept: the members of an object, each as a text, a
//! flag, or something else.

use vstd::prelude::*;
use crate::text::{
    find_from, first_match, from_chars, last_index_of, rfind_char, same, slice, to_chars,
};

verus! {

/// The error with which `serde_json` refuses a text.
#[verifier::external_type_specification]
#[verifier::external_body]
pub struct ExJsonError(serde_json::Error);

/// A member's value, as far as the agent reads it.
#[derive(Debug)]
pub enum JsonValue {
    /// A JSON string.
    Text(String),
    /// `true` or `false`.
    Flag(bool),
    /// Null, a number, an array or an object.
    Other,
}

/// A parsed JSON text, as far as the agent reads it.
#[derive(Debug)]
pub enum JsonDocument {
    /// An object, with its members.
    Object(Vec<(String, JsonValue)>),
    /// Any other JSON value.
    Other,
}

/// What a `JsonValue` holds.
pub enum JsonValueView {
    Text(Seq<char>),
    Flag(bool),
    Other,
}

/// What a `JsonDocument` holds.
pub enum JsonDocumentView {
    Object(Seq<(Seq<char>, JsonValueView)>),
    Other,
}

impl View for JsonValue {
    type V = JsonValueView;

    open spec fn view(&self) -> JsonValueView {
        match self {
            JsonValue::Text(s) => JsonValueView::Text(s@),
            JsonValue::Flag(b) => JsonValueView::Flag(*b),
            JsonValue::Other => JsonValueView::Other,
        }
    }
}

impl View for JsonDocument {
    type V = JsonDocumentView;

    open spec fn view(&self) -> JsonDocumentView {
        match self {
            JsonDocument::Object(members) => JsonDocumentView::Object(
                Seq::new(members@.len(), |i: int| (members@[i].0@, members@[i].1@)),
            ),
            JsonDocument::Other => JsonDocumentView::Other,
        }
    }
}

/// What `serde_json` reads in a text: the top level of the value it parses,
/// or nothing where it refuses the text.
pub uninterp spec fn json_document(text: Seq<char>) -> Option<JsonDocumentView>;

/// `serde_json::from_str` parses a text into a `serde_json::Value`, or refuses
/// it. An object is handed on as its members, in the order in which
/// `serde_json` keeps them, a string member as its text, a boolean member as
/// its flag. Whether a text is refused, and what is read in it, depends on
/// the text alone.
#[verifier::external_body]
pub(crate) fn parse_document(text: &str) -> (r: Result<JsonDocument, serde_json::Error>)
    ensures
        match r {
            Ok(doc) => json_document(text@) == Some(doc@),
            Err(_) => json_document(text@) is None,
        },
{
    let value = serde_json::from_str::<serde_json::Value>(text)?;
    let serde_json::Value::Object(map) = value else { return Ok(JsonDocument::Other) };
    Ok(JsonDocument::Object(map.into_iter().map(|(key, value)| (key, match value {
        serde_json::Value::String(s) => JsonValue::Text(s),
        serde_json::Value::Bool(b) => JsonValue::Flag(b),
        _ => JsonValue::Other,
    })).collect()))
}

/// The message of a `serde_json::Error`, as its `Display` writes it.
#[verifier::external_body]
pub(crate) fn error_message(error: &serde_json::Error) -> (message: String) {
    error.to_string()
}

/// The part of an answer that is taken for JSON: from its first `{` to its
/// last `}`, both included; the whole answer where one of them is missing or
/// the last `}` stands before the first `{`.
pub open spec fn json_span(s: Seq<char>) -> Seq<char> {
    match (first_match(s, "{"@, 0), last_index_of(s, '}')) {
        (Some(start), Some(end)) => if start <= end {
            s.subrange(start, end + 1)
        } else {
            s
        },
        _ => s,
    }
}

/// The part of an answer that is taken for JSON.
pub fn locate_json(response: &str) -> (r: String)
    ensures
        r@ == json_span(response@),
{
    let v = to_chars(response);
    let brace = to_chars("{");
    match find_from(&v, &brace, 0) {
        Some(start) => match rfind_char(&v, '}') {
            Some(end) => {
                if start <= end {
                    from_chars(&slice(&v, start, end + 1))
                } else {
                    from_chars(&v)
                }
            },
            None => from_chars(&v),
        },
        None => from_chars(&v),
    }
}

/// The value of the last member named `key`.
pub open spec fn member(members: Seq<(Seq<char>, JsonValueView)>, key: Seq<char>) -> Option<
    JsonValueView,
>
    decreases members.len(),
{
    if members.len() == 0 {
        None
    } else if members.last().0 == key {
        Some(members.last().1)
    } else {
        member(members.drop_last(), key)
    }
}

/// The text of the member `key` of a document, where the document is an
/// object that has such a member and the member is a string.
pub open spec fn text_member(doc: JsonDocumentView, key: Seq<char>) -> Option<Seq<char>> {
    match doc {
        JsonDocumentView::Object(members) => match member(members, key) {
            Some(JsonValueView::Text(s)) => Some(s),
            _ => None,
        },
        JsonDocumentView::Other => None,
    }
}

/// The flag of the member `key` of a document, where the document is an
/// object that has such a member and the member is a boolean.
pub open spec fn flag_member(doc: JsonDocumentView, key: Seq<char>) -> Option<bool> {
    match doc {
        JsonDocumentView::Object(members) => match member(members, key) {
            Some(JsonValueView::Flag(b)) => Some(b),
            _ => None,
        },
        JsonDocumentView::Other => None,
    }
}

impl JsonDocument {
    fn find(&self, key: &str) -> (r: Option<&JsonValue>)
        ensures
            match (r, self@) {
                (Some(v), JsonDocumentView::Object(members)) => member(members, key@) == Some(v@),
                (None, JsonDocumentView::Object(members)) => member(members, key@) is None,
                (Some(_), JsonDocumentView::Other) => false,
                (None, JsonDocumentView::Other) => true,
            },
    {
        match self {
            JsonDocument::Object(members) => {
                let k = to_chars(key);
                let ghost all = self@->Object_0;
                let mut i: usize = members.len();
                assert(all.take(i as int) == all);
                while i > 0
                    invariant
                        i <= members.len(),
                        k@ == key@,
                        all == Seq::new(members@.len(), |j: int| (members@[j].0@, members@[j].1@)),
                        self@ == JsonDocumentView::Object(all),
                        member(all, key@) == member(all.take(i as int), key@),
                    decreases i,
                {
                    let name = to_chars(members[i - 1].0.as_str());
                    assert(all.take(i as int).last() == all[i - 1]);
                    if same(&name, &k) {
                        assert(all[i - 1] == (members@[i - 1].0@, members@[i - 1].1@));
                        assert(member(all.take(i as int), key@) == Some(all[i - 1].1));
                        return Some(&members[i - 1].1);
                    }
                    assert(all.take(i as int).drop_last() == all.take(i - 1));
                    i -= 1;
                }
                None
            },
            JsonDocument::Other => None,
        }
    }

    /// The text of the string member `key`.
    pub fn text(&self, key: &str) -> (r: Option<String>)
        ensures
            match r {
                Some(s) => text_member(self@, key@) == Some(s@),
                None => text_member(self@, key@) is None,
            },
    {
        match self.find(key) {
            Some(JsonValue::Text(s)) => Some(s.clone()),
            _ => None,
        }
    }

    /// The flag of the boolean member `key`.
    pub fn flag(&self, key: &str) -> (r: Option<bool>)
        ensures
            r == flag_member(self@, key@),
    {
        match self.find(key) {
            Some(JsonValue::Flag(b)) => Some(*b),
            _ => None,
        }
    }
}

} // verus!
