//! Reading the members of a JSON object by name and type. A reader fails
//! with the name of the member that is missing or of another type.

use vstd::prelude::*;
use vstd::string::StringExecFns;
use crate::json::{view_of, Json, JsonView};

verus! {

/// The member `key` of `doc`, where `null` counts as absent.
pub open spec fn present(doc: JsonView, key: Seq<char>) -> Option<JsonView> {
    match doc.get(key) {
        Some(JsonView::Null) => None,
        other => other,
    }
}

/// The string member `key`, which has to be there.
pub open spec fn required_text(doc: JsonView, key: Seq<char>) -> Result<Seq<char>, Seq<char>> {
    match doc.str_at(key) {
        Some(s) => Ok(s),
        None => Err(key),
    }
}

/// The string member `key`, which may be absent or `null`.
pub open spec fn optional_text(doc: JsonView, key: Seq<char>) -> Result<Option<Seq<char>>, Seq<char>> {
    match present(doc, key) {
        None => Ok(None),
        Some(JsonView::Text(s)) => Ok(Some(s)),
        Some(_) => Err(key),
    }
}

/// The integer member `key`, which has to be there and within `i32`.
pub open spec fn required_i32(doc: JsonView, key: Seq<char>) -> Result<i32, Seq<char>> {
    match doc.i64_at(key) {
        Some(n) => if i32::MIN <= n <= i32::MAX {
            Ok(n as i32)
        } else {
            Err(key)
        },
        None => Err(key),
    }
}

/// The plain form of a reader's result.
pub open spec fn text_result(r: Result<String, String>) -> Result<Seq<char>, Seq<char>> {
    match r {
        Ok(s) => Ok(s@),
        Err(e) => Err(e@),
    }
}

/// The plain form of a text or a failure.
pub open spec fn text_result_of(r: Result<String, crate::http::ApiError>) -> Result<
    Seq<char>,
    crate::http::ApiErrorView,
> {
    match r {
        Ok(s) => Ok(s@),
        Err(e) => Err(e@),
    }
}

/// The plain form of an optional reader's result.
pub open spec fn optional_result(r: Result<Option<String>, String>) -> Result<Option<Seq<char>>, Seq<char>> {
    match r {
        Ok(s) => Ok(s.deep_view()),
        Err(e) => Err(e@),
    }
}

/// The plain form of an integer reader's result.
pub open spec fn i32_result(r: Result<i32, String>) -> Result<i32, Seq<char>> {
    match r {
        Ok(n) => Ok(n),
        Err(e) => Err(e@),
    }
}

/// The member `key` of `doc`, unless it is absent or `null`.
pub fn member<'a>(doc: &'a Json, key: &str) -> (r: Option<&'a Json>)
    ensures
        view_of(r) == present(doc@, key@),
{
    match doc.get(key) {
        Some(v) => if v.is_null() {
            None
        } else {
            Some(v)
        },
        None => None,
    }
}

/// Reads the string member `key`.
pub fn read_text(doc: &Json, key: &str) -> (r: Result<String, String>)
    ensures
        text_result(r) == required_text(doc@, key@),
{
    match doc.str_at(key) {
        Some(s) => Ok(s.clone()),
        None => Err(String::from_str(key)),
    }
}

/// Reads the string member `key` if it is there.
pub fn read_optional_text(doc: &Json, key: &str) -> (r: Result<Option<String>, String>)
    ensures
        optional_result(r) == optional_text(doc@, key@),
{
    match member(doc, key) {
        None => Ok(None),
        Some(v) => match v.as_str() {
            Some(s) => Ok(Some(s.clone())),
            None => Err(String::from_str(key)),
        },
    }
}

/// Reads the integer member `key`.
pub fn read_i32(doc: &Json, key: &str) -> (r: Result<i32, String>)
    ensures
        i32_result(r) == required_i32(doc@, key@),
{
    match doc.i64_at(key) {
        Some(n) => if -2147483648 <= n && n <= 2147483647 {
            Ok(n as i32)
        } else {
            Err(String::from_str(key))
        },
        None => Err(String::from_str(key)),
    }
}

/// Whether `doc` is an object.
pub fn is_object(doc: &Json) -> (r: bool)
    ensures
        r == (doc@ is Object),
{
    match doc {
        Json::Object(_) => true,
        _ => false,
    }
}

} // verus!
