//! JSON documents, as far as the services' answers are read.

use crate::result_view;
use vstd::prelude::*;

verus! {

/// `serde_json::Value`, the parser's own form of a document. Verified code
/// never looks into one: it exists between the parser and [`Json`] only.
#[verifier::external_type_specification]
#[verifier::external_body]
pub struct ExValue(serde_json::Value);

/// One member of a JSON object.
#[derive(Debug, PartialEq, Eq)]
pub struct Member {
    pub key: String,
    pub value: Json,
}

/// A JSON document.
#[derive(Debug, PartialEq, Eq)]
pub enum Json {
    Null,
    Bool(bool),
    /// A number, held as the text that JSON writes it with.
    Number(String),
    Text(String),
    Array(Vec<Json>),
    Object(Vec<Member>),
}

/// The mathematical value of a [`Member`].
pub struct MemberView {
    pub key: Seq<char>,
    pub value: JsonView,
}

/// The mathematical value of a [`Json`].
pub enum JsonView {
    Null,
    Bool(bool),
    Number(Seq<char>),
    Text(Seq<char>),
    Array(Seq<JsonView>),
    Object(Seq<MemberView>),
}

impl View for Json {
    type V = JsonView;

    open spec fn view(&self) -> JsonView
        decreases self,
    {
        match self {
            Json::Null => JsonView::Null,
            Json::Bool(b) => JsonView::Bool(*b),
            Json::Number(n) => JsonView::Number(n@),
            Json::Text(s) => JsonView::Text(s@),
            Json::Array(items) => JsonView::Array(
                Seq::new(
                    items.len() as nat,
                    |i: int|
                        if 0 <= i < items.len() {
                            items[i]@
                        } else {
                            JsonView::Null
                        },
                ),
            ),
            Json::Object(members) => JsonView::Object(
                Seq::new(
                    members.len() as nat,
                    |i: int|
                        if 0 <= i < members.len() {
                            MemberView { key: members[i].key@, value: members[i].value@ }
                        } else {
                            MemberView { key: Seq::empty(), value: JsonView::Null }
                        },
                ),
            ),
        }
    }
}

impl View for Member {
    type V = MemberView;

    open spec fn view(&self) -> MemberView {
        MemberView { key: self.key@, value: self.value@ }
    }
}

/// The value that a lookup of `key` finds among `members`: that of the first
/// member with this key.
pub open spec fn first_with_key(members: Seq<MemberView>, key: Seq<char>) -> Option<JsonView>
    decreases members.len(),
{
    if members.len() == 0 {
        None
    } else if members[0].key == key {
        Some(members[0].value)
    } else {
        first_with_key(members.drop_first(), key)
    }
}

impl JsonView {
    /// The value under `key`, where this is an object that has such a member.
    pub open spec fn member(self, key: Seq<char>) -> Option<JsonView> {
        match self {
            JsonView::Object(members) => first_with_key(members, key),
            _ => None,
        }
    }

    /// The element at `index`, where this is an array that long.
    pub open spec fn item(self, index: int) -> Option<JsonView> {
        match self {
            JsonView::Array(items) => if 0 <= index < items.len() {
                Some(items[index])
            } else {
                None
            },
            _ => None,
        }
    }

    /// The number of elements, where this is an array.
    pub open spec fn len(self) -> Option<nat> {
        match self {
            JsonView::Array(items) => Some(items.len()),
            _ => None,
        }
    }

    /// The characters of this value, where it is a string.
    pub open spec fn text(self) -> Option<Seq<char>> {
        match self {
            JsonView::Text(chars) => Some(chars),
            _ => None,
        }
    }
}

/// What `serde_json::from_slice` makes of `bytes` when asked for a
/// `serde_json::Value`: the document that the bytes spell, or the parser's
/// description of why they spell none.
pub uninterp spec fn json_document(bytes: Seq<u8>) -> Result<JsonView, Seq<char>>;

/// Moves a `serde_json::Value` into a [`Json`], variant by variant; a number
/// goes by the text that `serde_json::Number` displays, an object by the
/// entries of its map in the order in which the map hands them out.
#[verifier::external_body]
fn json_from_value(value: serde_json::Value) -> Json {
    match value {
        serde_json::Value::Null => Json::Null,
        serde_json::Value::Bool(b) => Json::Bool(b),
        serde_json::Value::Number(n) => Json::Number(n.to_string()),
        serde_json::Value::String(s) => Json::Text(s),
        serde_json::Value::Array(a) => Json::Array(a.into_iter().map(json_from_value).collect()),
        serde_json::Value::Object(m) => Json::Object(
            m.into_iter().map(|(key, v)| Member { key, value: json_from_value(v) }).collect(),
        ),
    }
}

/// Calls `serde_json::from_slice` for a `serde_json::Value`. The contract
/// claims only that the outcome is a function of the bytes: the document on
/// success, the error's displayed text on failure.
#[verifier::external_body]
fn parse_value(bytes: &[u8]) -> (parsed: Result<Json, String>)
    ensures
        result_view(parsed) == json_document(bytes@),
{
    match serde_json::from_slice::<serde_json::Value>(bytes) {
        Ok(value) => Ok(json_from_value(value)),
        Err(error) => Err(error.to_string()),
    }
}

impl Member {
    /// The member that puts `value` under `key`.
    pub fn new(key: &str, value: Json) -> (member: Member)
        ensures
            member@ == (MemberView { key: key@, value: value@ }),
    {
        Member { key: String::from_str(key), value }
    }
}

impl Json {
    /// The string of the characters of `chars`.
    pub fn string(chars: &str) -> (json: Json)
        ensures
            json@ == JsonView::Text(chars@),
    {
        Json::Text(String::from_str(chars))
    }

    /// The array of `items`.
    pub fn array(items: Vec<Json>) -> (json: Json)
        ensures
            json@ == JsonView::Array(items@.map_values(|item: Json| item@)),
    {
        let json = Json::Array(items);
        assert(json@->Array_0 =~= items@.map_values(|item: Json| item@));
        json
    }

    /// The object of `members`.
    pub fn object(members: Vec<Member>) -> (json: Json)
        ensures
            json@ == JsonView::Object(members@.map_values(|member: Member| member@)),
    {
        let json = Json::Object(members);
        assert(json@->Object_0 =~= members@.map_values(|member: Member| member@));
        json
    }

    /// Reads `bytes` as one JSON document.
    pub fn parse(bytes: &[u8]) -> (parsed: Result<Json, String>)
        ensures
            result_view(parsed) == json_document(bytes@),
    {
        parse_value(bytes)
    }

    /// The value under `key` if this is an object with such a member.
    pub fn member(&self, key: &str) -> (found: Option<&Json>)
        ensures
            match found {
                Some(value) => self@.member(key@) == Some(value@),
                None => self@.member(key@) is None,
            },
    {
        match self {
            Json::Object(members) => {
                let wanted = String::from_str(key);
                let ghost all = self@->Object_0;
                assert(all.skip(0) =~= all);
                let mut i: usize = 0;
                while i < members.len()
                    invariant
                        i <= members.len(),
                        wanted@ == key@,
                        self@ == JsonView::Object(all),
                        all.len() == members.len(),
                        forall|j: int| 0 <= j < all.len() ==> #[trigger] all[j] == members[j]@,
                        first_with_key(all, key@) == first_with_key(all.skip(i as int), key@),
                    decreases members.len() - i,
                {
                    assert(all.skip(i as int).drop_first() =~= all.skip(i + 1));
                    if members[i].key == wanted {
                        return Some(&members[i].value);
                    }
                    i = i + 1;
                }
                None
            },
            _ => None,
        }
    }

    /// The element at `index` if this is an array that long.
    pub fn item(&self, index: usize) -> (found: Option<&Json>)
        ensures
            match found {
                Some(value) => self@.item(index as int) == Some(value@),
                None => self@.item(index as int) is None,
            },
    {
        match self {
            Json::Array(items) => if index < items.len() {
                Some(&items[index])
            } else {
                None
            },
            _ => None,
        }
    }

    /// The number of elements if this is an array.
    pub fn len(&self) -> (found: Option<usize>)
        ensures
            match found {
                Some(count) => self@.len() == Some(count as nat),
                None => self@.len() is None,
            },
    {
        match self {
            Json::Array(items) => Some(items.len()),
            _ => None,
        }
    }

    /// The characters of this value if it is a string.
    pub fn text(&self) -> (found: Option<&String>)
        ensures
            match found {
                Some(chars) => self@.text() == Some(chars@),
                None => self@.text() is None,
            },
    {
        match self {
            Json::Text(chars) => Some(chars),
            _ => None,
        }
    }
}

} // verus!
