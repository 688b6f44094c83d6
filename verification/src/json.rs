//! JSON documents as a plain tree, with the few accessors the store adapters
//! need, and the bridge from `serde_json`'s parser.

use vstd::prelude::*;
use crate::text::same_text;

verus! {

/// A JSON document.
#[derive(Debug, PartialEq, Eq)]
pub enum Json {
    Null,
    Bool(bool),
    /// A number that is an integer within `i64`.
    Integer(i64),
    /// Any other number, kept as the text of its decimal rendering.
    Decimal(String),
    Text(String),
    Array(Vec<Json>),
    /// The members of an object, in the order the parser yields them.
    Object(Vec<(String, Json)>),
}

/// What a `Json` document holds.
pub enum JsonView {
    Null,
    Bool(bool),
    Integer(i64),
    Decimal(Seq<char>),
    Text(Seq<char>),
    Array(Seq<JsonView>),
    Object(Seq<(Seq<char>, JsonView)>),
}

/// The value of the first member named `key` among `members[from..]`.
pub open spec fn member_from(members: Seq<(Seq<char>, JsonView)>, key: Seq<char>, from: int) -> Option<
    JsonView,
>
    decreases members.len() - from,
{
    if from < 0 || from >= members.len() {
        None
    } else if members[from].0 == key {
        Some(members[from].1)
    } else {
        member_from(members, key, from + 1)
    }
}

impl JsonView {
    /// The member `key` of an object; `None` for anything but an object and
    /// for an object without that member.
    pub open spec fn get(self, key: Seq<char>) -> Option<JsonView> {
        match self {
            JsonView::Object(members) => member_from(members, key, 0),
            _ => None,
        }
    }

    /// The characters of a string value.
    pub open spec fn as_str(self) -> Option<Seq<char>> {
        match self {
            JsonView::Text(s) => Some(s),
            _ => None,
        }
    }

    /// The elements of an array value.
    pub open spec fn as_array(self) -> Option<Seq<JsonView>> {
        match self {
            JsonView::Array(items) => Some(items),
            _ => None,
        }
    }

    /// The value of an integer number.
    pub open spec fn as_i64(self) -> Option<i64> {
        match self {
            JsonView::Integer(n) => Some(n),
            _ => None,
        }
    }

    /// The string member `key` of an object.
    pub open spec fn str_at(self, key: Seq<char>) -> Option<Seq<char>> {
        match self.get(key) {
            Some(v) => v.as_str(),
            None => None,
        }
    }

    /// The integer member `key` of an object.
    pub open spec fn i64_at(self, key: Seq<char>) -> Option<i64> {
        match self.get(key) {
            Some(v) => v.as_i64(),
            None => None,
        }
    }
}

/// What the document `j` holds.
pub open spec fn contents(j: Json) -> JsonView
    decreases j,
{
    match j {
        Json::Null => JsonView::Null,
        Json::Bool(b) => JsonView::Bool(b),
        Json::Integer(n) => JsonView::Integer(n),
        Json::Decimal(s) => JsonView::Decimal(s@),
        Json::Text(s) => JsonView::Text(s@),
        Json::Array(items) => JsonView::Array(
            Seq::new(
                items@.len(),
                |i: int|
                    if 0 <= i < items@.len() {
                        contents(items@[i])
                    } else {
                        JsonView::Null
                    },
            ),
        ),
        Json::Object(members) => JsonView::Object(
            Seq::new(
                members@.len(),
                |i: int|
                    if 0 <= i < members@.len() {
                        (members@[i].0@, contents(members@[i].1))
                    } else {
                        (Seq::empty(), JsonView::Null)
                    },
            ),
        ),
    }
}

impl View for Json {
    type V = JsonView;

    open spec fn view(&self) -> JsonView {
        contents(*self)
    }
}

impl DeepView for Json {
    type V = JsonView;

    open spec fn deep_view(&self) -> JsonView {
        self@
    }
}

/// The view of an optional reference to a document.
pub open spec fn view_of(j: Option<&Json>) -> Option<JsonView> {
    match j {
        Some(v) => Some(v@),
        None => None,
    }
}

impl Json {
    /// The member `key` of an object.
    pub fn get(&self, key: &str) -> (r: Option<&Json>)
        ensures
            view_of(r) == self@.get(key@),
    {
        match self {
            Json::Object(members) => {
                let mut i: usize = 0;
                while i < members.len()
                    invariant
                        i <= members.len(),
                        self@ == JsonView::Object(self@->Object_0),
                        self@->Object_0.len() == members@.len(),
                        forall|k: int|
                            0 <= k < members@.len() ==> (#[trigger] self@->Object_0[k]) == (
                                members@[k].0@,
                                members@[k].1@,
                            ),
                        member_from(self@->Object_0, key@, i as int) == member_from(self@->Object_0, key@, 0),
                    decreases members.len() - i,
                {
                    if same_text(members[i].0.as_str(), key) {
                        return Some(&members[i].1);
                    }
                    i += 1;
                }
                None
            },
            _ => None,
        }
    }

    /// The text of a string value.
    pub fn as_str(&self) -> (r: Option<&String>)
        ensures
            r.deep_view() == self@.as_str(),
    {
        match self {
            Json::Text(s) => Some(s),
            _ => None,
        }
    }

    /// The elements of an array value.
    pub fn as_array(&self) -> (r: Option<&Vec<Json>>)
        ensures
            r.deep_view() == self@.as_array(),
    {
        match self {
            Json::Array(items) => {
                assert(items.deep_view() =~= self@->Array_0);
                Some(items)
            },
            _ => None,
        }
    }

    /// The value of an integer number.
    pub fn as_i64(&self) -> (r: Option<i64>)
        ensures
            r == self@.as_i64(),
    {
        match self {
            Json::Integer(n) => Some(*n),
            _ => None,
        }
    }

    /// Whether the document is `null`.
    pub fn is_null(&self) -> (r: bool)
        ensures
            r == (self@ is Null),
    {
        match self {
            Json::Null => true,
            _ => false,
        }
    }

    /// The string member `key` of an object.
    pub fn str_at(&self, key: &str) -> (r: Option<&String>)
        ensures
            r.deep_view() == self@.str_at(key@),
    {
        match self.get(key) {
            Some(v) => v.as_str(),
            None => None,
        }
    }

    /// The integer member `key` of an object.
    pub fn i64_at(&self, key: &str) -> (r: Option<i64>)
        ensures
            r == self@.i64_at(key@),
    {
        match self.get(key) {
            Some(v) => v.as_i64(),
            None => None,
        }
    }
}

#[verifier::external_type_specification]
#[verifier::external_body]
pub struct ExValue(serde_json::Value);

/// The document that `serde_json` reads from `text`, or, where it rejects
/// the text, the `Display` text of its error.
pub uninterp spec fn parsed_document(text: Seq<char>) -> Result<JsonView, Seq<char>>;

/// What a `serde_json::Value` holds: its tree, numbers beyond `i64` as their
/// decimal text, object members in iteration order.
pub uninterp spec fn value_contents(v: serde_json::Value) -> JsonView;

/// The plain form of the parser's result.
pub open spec fn read_view(r: Result<serde_json::Value, String>) -> Result<JsonView, Seq<char>> {
    match r {
        Ok(v) => Ok(value_contents(v)),
        Err(detail) => Err(detail@),
    }
}

/// Calls `serde_json::from_str` for a `Value` and renders an error by its
/// `Display`. The text alone decides the outcome: the contract names the
/// document, or the error's text, and says no more.
#[verifier::external_body]
fn read_value(text: &str) -> (r: Result<serde_json::Value, String>)
    ensures
        read_view(r) == parsed_document(text@),
{
    serde_json::from_str::<serde_json::Value>(text).map_err(|e| e.to_string())
}

/// Copies a `serde_json::Value` into a `Json`, variant by variant; a number
/// goes through `Number::as_i64` and, failing that, its `Display` text.
#[verifier::external_body]
fn json_of_value(v: &serde_json::Value) -> (j: Json)
    ensures
        j@ == value_contents(*v),
{
    match v {
        serde_json::Value::Null => Json::Null,
        serde_json::Value::Bool(b) => Json::Bool(*b),
        serde_json::Value::Number(n) => match n.as_i64() {
            Some(i) => Json::Integer(i),
            None => Json::Decimal(n.to_string()),
        },
        serde_json::Value::String(s) => Json::Text(s.clone()),
        serde_json::Value::Array(a) => Json::Array(a.iter().map(json_of_value).collect()),
        serde_json::Value::Object(m) => Json::Object(m.iter().map(|(k, x)| (k.clone(), json_of_value(x))).collect()),
    }
}

/// Why a text was not read as JSON.
#[derive(Debug, PartialEq, Eq)]
pub struct JsonError {
    pub detail: String,
}

/// Reads `text` as a JSON document.
pub fn parse(text: &str) -> (r: Result<Json, JsonError>)
    ensures
        match parsed_document(text@) {
            Ok(document) => r matches Ok(j) && j@ == document,
            Err(detail) => r matches Err(e) && e.detail@ == detail,
        },
{
    match read_value(text) {
        Ok(v) => Ok(json_of_value(&v)),
        Err(detail) => Err(JsonError { detail }),
    }
}

} // verus!
