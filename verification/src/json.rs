//! JSON documents as plain values.
//!
//! The vault's command-line client answers in JSON. A document is parsed by
//! `serde_json` and then held as a [`Json`] tree, whose mathematical value is
//! a [`JsonValue`]. The accessors read a document the way `serde_json::Value`
//! is read: by member name, as a string, as an array.

use vstd::prelude::*;

verus! {

/// A JSON document.
///
/// An object is kept as the list of its members. A document that comes out
/// of [`Json::parse`] never has two members of one name in an object; in a
/// hand-built document the first member of a name is the one that is read.
#[derive(Debug, PartialEq, Eq)]
pub enum Json {
    Null,
    Bool(bool),
    /// A number, as the decimal text that `serde_json` prints for it.
    Number(String),
    Text(String),
    Array(Vec<Json>),
    Object(Vec<(String, Json)>),
}

/// The mathematical value of a [`Json`] document.
pub enum JsonValue {
    Null,
    Bool(bool),
    Number(Seq<char>),
    Text(Seq<char>),
    Array(Seq<JsonValue>),
    Object(Seq<(Seq<char>, JsonValue)>),
}

/// The value of the first member called `key` among `members`.
pub open spec fn first_member(members: Seq<(Seq<char>, JsonValue)>, key: Seq<char>) -> Option<
    JsonValue,
>
    decreases members.len(),
{
    if members.len() == 0 {
        None
    } else if members[0].0 == key {
        Some(members[0].1)
    } else {
        first_member(members.drop_first(), key)
    }
}

impl JsonValue {
    /// The member called `key`, where this is an object that has one.
    pub open spec fn member(self, key: Seq<char>) -> Option<JsonValue> {
        match self {
            JsonValue::Object(members) => first_member(members, key),
            _ => None,
        }
    }

    /// The member called `key`, and `Null` where there is none.
    pub open spec fn member_or_null(self, key: Seq<char>) -> JsonValue {
        match self.member(key) {
            Some(value) => value,
            None => JsonValue::Null,
        }
    }

    /// The characters, where this is a string.
    pub open spec fn text(self) -> Option<Seq<char>> {
        match self {
            JsonValue::Text(chars) => Some(chars),
            _ => None,
        }
    }

    /// The elements, where this is an array.
    pub open spec fn elements(self) -> Option<Seq<JsonValue>> {
        match self {
            JsonValue::Array(elements) => Some(elements),
            _ => None,
        }
    }
}

/// The value of a document.
pub open spec fn value_of(doc: Json) -> JsonValue
    decreases doc,
{
    match doc {
        Json::Null => JsonValue::Null,
        Json::Bool(b) => JsonValue::Bool(b),
        Json::Number(digits) => JsonValue::Number(digits@),
        Json::Text(chars) => JsonValue::Text(chars@),
        Json::Array(elements) => JsonValue::Array(
            Seq::new(
                elements@.len(),
                |i: int|
                    if 0 <= i < elements@.len() {
                        value_of(elements@[i])
                    } else {
                        arbitrary()
                    },
            ),
        ),
        Json::Object(members) => JsonValue::Object(
            Seq::new(
                members@.len(),
                |i: int|
                    if 0 <= i < members@.len() {
                        (members@[i].0@, value_of(members@[i].1))
                    } else {
                        arbitrary()
                    },
            ),
        ),
    }
}

impl View for Json {
    type V = JsonValue;

    open spec fn view(&self) -> JsonValue {
        value_of(*self)
    }
}

/// The values of a list of documents.
pub open spec fn values_of(docs: Seq<Json>) -> Seq<JsonValue> {
    Seq::new(docs.len(), |i: int| docs[i]@)
}

/// The values of an object's members.
pub open spec fn members_of(members: Seq<(String, Json)>) -> Seq<(Seq<char>, JsonValue)> {
    Seq::new(members.len(), |i: int| (members[i].0@, members[i].1@))
}

impl DeepView for Json {
    type V = JsonValue;

    open spec fn deep_view(&self) -> JsonValue {
        self@
    }
}

/// The value of an array is the list of its elements' values.
pub proof fn lemma_array_value(elements: Vec<Json>)
    ensures
        Json::Array(elements)@ == JsonValue::Array(values_of(elements@)),
        values_of(elements@) == elements.deep_view(),
{
    assert(Json::Array(elements)@->Array_0 =~= values_of(elements@));
    assert(values_of(elements@) =~= elements.deep_view());
}

/// The value of an object is the list of its members' names and values.
pub proof fn lemma_object_value(members: Vec<(String, Json)>)
    ensures
        Json::Object(members)@ == JsonValue::Object(members_of(members@)),
{
    assert(Json::Object(members)@->Object_0 =~= members_of(members@));
}

impl Json {
    /// The member called `key`, where this is an object that has one.
    pub fn get(&self, key: &str) -> (found: Option<&Json>)
        ensures
            found.deep_view() == self@.member(key@),
    {
        match self {
            Json::Object(members) => {
                proof {
                    lemma_object_value(*members);
                }
                let wanted = key.to_owned();
                let ghost all = members_of(members@);
                let mut i: usize = 0;
                assert(all.skip(0) =~= all);
                while i < members.len()
                    invariant
                        i <= members.len(),
                        wanted@ == key@,
                        self@ == JsonValue::Object(all),
                        all == members_of(members@),
                        first_member(all, key@) == first_member(all.skip(i as int), key@),
                    decreases members.len() - i,
                {
                    let ghost rest = all.skip(i as int);
                    assert(rest[0] == all[i as int]);
                    assert(all[i as int] == (members@[i as int].0@, members@[i as int].1@));
                    assert(rest.drop_first() =~= all.skip(i + 1));
                    if members[i].0 == wanted {
                        return Some(&members[i].1);
                    }
                    i += 1;
                }
                None
            },
            _ => None,
        }
    }

    /// The characters, where this is a string.
    pub fn as_str(&self) -> (text: Option<&str>)
        ensures
            text.deep_view() == self@.text(),
    {
        match self {
            Json::Text(chars) => Some(chars.as_str()),
            _ => None,
        }
    }

    /// The elements, where this is an array.
    pub fn as_array(&self) -> (elements: Option<&Vec<Json>>)
        ensures
            elements.deep_view() == self@.elements(),
    {
        match self {
            Json::Array(elements) => {
                proof {
                    lemma_array_value(*elements);
                }
                Some(elements)
            },
            _ => None,
        }
    }

    /// The characters of the string member called `key`, where this is an
    /// object whose member of that name is a string.
    pub fn str_member(&self, key: &str) -> (text: Option<&str>)
        ensures
            text.deep_view() == self@.member_or_null(key@).text(),
    {
        match self.get(key) {
            Some(value) => value.as_str(),
            None => None,
        }
    }
}

impl Clone for Json {
    /// A copy with the same value.
    fn clone(&self) -> (copy: Json)
        ensures
            copy@ == self@,
        decreases self,
    {
        match self {
            Json::Null => Json::Null,
            Json::Bool(b) => Json::Bool(*b),
            Json::Number(digits) => Json::Number(digits.clone()),
            Json::Text(chars) => Json::Text(chars.clone()),
            Json::Array(elements) => {
                let mut copies: Vec<Json> = Vec::new();
                let mut i: usize = 0;
                while i < elements.len()
                    invariant
                        i <= elements.len(),
                        *self == Json::Array(*elements),
                        copies.len() == i,
                        forall|j: int| 0 <= j < i ==> (#[trigger] copies[j])@ == elements[j]@,
                    decreases elements.len() - i,
                {
                    assert(decreases_to!(*self => self->Array_0));
                    let copy = elements[i].clone();
                    copies.push(copy);
                    i += 1;
                }
                proof {
                    lemma_array_value(*elements);
                    lemma_array_value(copies);
                    assert(values_of(copies@) =~= values_of(elements@));
                }
                Json::Array(copies)
            },
            Json::Object(members) => {
                let mut copies: Vec<(String, Json)> = Vec::new();
                let mut i: usize = 0;
                while i < members.len()
                    invariant
                        i <= members.len(),
                        *self == Json::Object(*members),
                        copies.len() == i,
                        forall|j: int|
                            0 <= j < i ==> (#[trigger] copies[j]).0@ == members[j].0@ && copies[j].1@
                                == members[j].1@,
                    decreases members.len() - i,
                {
                    let name = members[i].0.clone();
                    assert(decreases_to!(*self => self->Object_0));
                    let value = members[i].1.clone();
                    copies.push((name, value));
                    i += 1;
                }
                proof {
                    lemma_object_value(*members);
                    lemma_object_value(copies);
                    assert(members_of(copies@) =~= members_of(members@));
                }
                Json::Object(copies)
            },
        }
    }
}

/// `serde_json`'s document type. A value of it only passes from the parser
/// to [`from_value`].
#[verifier::external_type_specification]
#[verifier::external_body]
pub struct ExSerdeValue(serde_json::Value);

/// `serde_json`'s error type.
#[verifier::external_type_specification]
#[verifier::external_body]
pub struct ExSerdeError(serde_json::Error);

/// What `serde_json::from_str` makes of a text: the value of the document
/// that it parses the text to, and `None` where it reports an error.
pub uninterp spec fn parsed_document(text: Seq<char>) -> Option<JsonValue>;

/// Rewrites a `serde_json::Value` as a [`Json`], node for node: a variant
/// becomes the variant of the same kind, a number the text that
/// `serde_json` prints for it, an object the list of its entries in the
/// order in which its map yields them. Nothing is assumed of the result.
#[verifier::external_body]
fn from_value(value: &serde_json::Value) -> Json {
    match value {
        serde_json::Value::Null => Json::Null,
        serde_json::Value::Bool(b) => Json::Bool(*b),
        serde_json::Value::Number(n) => Json::Number(n.to_string()),
        serde_json::Value::String(s) => Json::Text(s.clone()),
        serde_json::Value::Array(a) => Json::Array(a.iter().map(from_value).collect()),
        serde_json::Value::Object(m) => Json::Object(
            m.iter().map(|(k, v)| (k.clone(), from_value(v))).collect(),
        ),
    }
}

/// Calls `serde_json::from_str` for a `serde_json::Value`. Assumed: the
/// parser's answer depends on the text alone, so the outcome is
/// [`parsed_document`] of the text.
#[verifier::external_body]
fn parse_value(text: &str) -> (parsed: Result<Json, serde_json::Error>)
    ensures
        parsed matches Ok(doc) ==> parsed_document(text@) == Some(doc@),
        parsed is Err ==> parsed_document(text@) is None,
{
    serde_json::from_str::<serde_json::Value>(text).map(|value| from_value(&value))
}

/// Calls `to_string` on a `serde_json::Error`: the parser's own words, with
/// the line and column where it has them. Nothing is assumed of the text.
#[verifier::external_body]
fn error_text(error: &serde_json::Error) -> String {
    error.to_string()
}

/// Why a text is no JSON document.
#[derive(Debug, PartialEq, Eq)]
pub struct ParseError {
    /// The parser's description of what it found.
    pub message: String,
}

impl Json {
    /// Parses a text as one JSON document.
    ///
    /// The outcome is that of `serde_json`: the document where it accepts the
    /// text, an error with its message where it does not.
    pub fn parse(text: &str) -> (parsed: Result<Json, ParseError>)
        ensures
            parsed matches Ok(doc) ==> parsed_document(text@) == Some(doc@),
            parsed is Err <==> parsed_document(text@) is None,
    {
        match parse_value(text) {
            Ok(doc) => Ok(doc),
            Err(error) => Err(ParseError { message: error_text(&error) }),
        }
    }
}

} // verus!
