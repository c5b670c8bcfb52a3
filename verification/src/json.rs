//! JSON values, as the `serde_json` crate reads them.
//!
//! [`Json`] holds one level of a value: what the value is and, of an array
//! or an object, the JSON texts of what it holds. Going down into a value
//! is reading one of those texts again. The text is parsed by `serde_json`;
//! the result of that is only named here ([`json_parsed`]), and what the
//! readers of session state make of a value is verified for every value.

use crate::text::texts;
use vstd::prelude::*;

verus! {

/// A JSON value, one level deep.
#[derive(Debug)]
pub enum Json {
    Null,
    Bool(bool),
    /// A number: its value where it is a whole number that fits `u64`.
    Number(Option<u64>),
    Text(String),
    /// An array: the JSON text of each item.
    Array(Vec<String>),
    /// An object: the name of each member and the JSON text of its value.
    Object(Vec<(String, String)>),
}

/// What a [`Json`] holds.
pub enum JsonView {
    Null,
    Bool(bool),
    Number(Option<u64>),
    Text(Seq<char>),
    Array(Seq<Seq<char>>),
    Object(Seq<(Seq<char>, Seq<char>)>),
}

/// What the members of an object hold.
pub open spec fn members_view(members: Seq<(String, String)>) -> Seq<(Seq<char>, Seq<char>)> {
    members.map_values(|member: (String, String)| (member.0@, member.1@))
}

impl View for Json {
    type V = JsonView;

    open spec fn view(&self) -> JsonView {
        match self {
            Json::Null => JsonView::Null,
            Json::Bool(b) => JsonView::Bool(*b),
            Json::Number(n) => JsonView::Number(*n),
            Json::Text(s) => JsonView::Text(s@),
            Json::Array(items) => JsonView::Array(texts(items@)),
            Json::Object(members) => JsonView::Object(members_view(members@)),
        }
    }
}

/// The value that `text` denotes, one level deep; `None` where `text` is no
/// JSON.
pub uninterp spec fn json_parsed(text: Seq<char>) -> Option<JsonView>;

/// `serde_json::from_str`, read as a `serde_json::Value`, of which one
/// level is kept: of a number what `serde_json::Number::as_u64` returns, of
/// an item or a member the text that `serde_json::Value::to_string` writes.
/// The contract claims that the answer depends on `text` alone, and names
/// it.
#[verifier::external_body]
pub(crate) fn parse(text: &str) -> (r: Option<Json>)
    ensures
        match r {
            Some(value) => json_parsed(text@) == Some(value@),
            None => json_parsed(text@) is None,
        },
{
    Some(match serde_json::from_str::<serde_json::Value>(text).ok()? {
        serde_json::Value::Null => Json::Null,
        serde_json::Value::Bool(b) => Json::Bool(b),
        serde_json::Value::Number(n) => Json::Number(n.as_u64()),
        serde_json::Value::String(s) => Json::Text(s),
        serde_json::Value::Array(items) => Json::Array(
            items.iter().map(|item| item.to_string()).collect(),
        ),
        serde_json::Value::Object(members) => Json::Object(
            members.iter().map(|(name, member)| (name.clone(), member.to_string())).collect(),
        ),
    })
}

/// The position of the first member of the name `name` at or after `from`.
pub open spec fn member_from(
    members: Seq<(Seq<char>, Seq<char>)>,
    name: Seq<char>,
    from: int,
) -> Option<
    int,
>
    decreases members.len() - from,
{
    if from < 0 || from >= members.len() {
        None
    } else if members[from].0 == name {
        Some(from)
    } else {
        member_from(members, name, from + 1)
    }
}

impl JsonView {
    /// The JSON text of the member of the name `name`, where the value is
    /// an object that has one.
    pub open spec fn member_text(self, name: Seq<char>) -> Option<Seq<char>> {
        match self {
            JsonView::Object(members) => match member_from(members, name, 0) {
                Some(at) => Some(members[at].1),
                None => None,
            },
            _ => None,
        }
    }

    /// The member of the name `name`, where the value is an object that
    /// has one.
    pub open spec fn member(self, name: Seq<char>) -> Option<JsonView> {
        match self.member_text(name) {
            Some(text) => json_parsed(text),
            None => None,
        }
    }

    /// The JSON texts of the items, where the value is an array.
    pub open spec fn items(self) -> Option<Seq<Seq<char>>> {
        match self {
            JsonView::Array(items) => Some(items),
            _ => None,
        }
    }

    /// The text, where the value is a string.
    pub open spec fn text(self) -> Option<Seq<char>> {
        match self {
            JsonView::Text(text) => Some(text),
            _ => None,
        }
    }

    /// The number, where the value is a whole number that fits `u64`.
    pub open spec fn number(self) -> Option<u64> {
        match self {
            JsonView::Number(n) => n,
            _ => None,
        }
    }
}

/// The view of an optional value.
pub open spec fn opt_json(value: Option<Json>) -> Option<JsonView> {
    match value {
        Some(value) => Some(value@),
        None => None,
    }
}

/// The value that `text` denotes, one level deep.
pub fn parse_json(text: &str) -> (r: Option<Json>)
    ensures
        opt_json(r) == json_parsed(text@),
{
    parse(text)
}

impl Json {
    /// The member of the name `name`, where the value is an object that
    /// has one.
    pub fn get(&self, name: &str) -> (r: Option<Json>)
        ensures
            opt_json(r) == self@.member(name@),
    {
        match self {
            Json::Object(members) => {
                let wanted = String::from_str(name);
                let ghost views = members_view(members@);
                let mut i: usize = 0;
                while i < members.len()
                    invariant
                        i <= members.len(),
                        wanted@ == name@,
                        views == members_view(members@),
                        self@ == JsonView::Object(views),
                        member_from(views, name@, 0) == member_from(views, name@, i as int),
                    decreases members.len() - i,
                {
                    assert(views[i as int] == (members@[i as int].0@, members@[i as int].1@));
                    if members[i].0 == wanted {
                        return parse(members[i].1.as_str());
                    }
                    i += 1;
                }
                None
            },
            _ => None,
        }
    }

    /// The JSON texts of the items, where the value is an array.
    pub fn as_array(&self) -> (r: Option<&Vec<String>>)
        ensures
            match r {
                Some(items) => self@.items() == Some(texts(items@)),
                None => self@.items() is None,
            },
    {
        match self {
            Json::Array(items) => Some(items),
            _ => None,
        }
    }

    /// The text, where the value is a string.
    pub fn as_str(&self) -> (r: Option<&String>)
        ensures
            match r {
                Some(text) => self@.text() == Some(text@),
                None => self@.text() is None,
            },
    {
        match self {
            Json::Text(text) => Some(text),
            _ => None,
        }
    }

    /// The number, where the value is a whole number that fits `u64`.
    pub fn as_u64(&self) -> (r: Option<u64>)
        ensures
            r == self@.number(),
    {
        match self {
            Json::Number(n) => *n,
            _ => None,
        }
    }
}

} // verus!
