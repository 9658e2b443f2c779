//! Reading single values out of JSON text, and quoting text for it, as
//! `serde_json` does both.

use vstd::prelude::*;

verus! {

/// The integer that the JSON document `text` holds at the JSON pointer `pointer`,
/// if `text` is a document, the pointer leads to a value in it and that value is
/// a number that an `i64` represents.
pub uninterp spec fn json_integer(text: Seq<char>, pointer: Seq<char>) -> Option<i64>;

/// As `json_integer`, for a number that a `u64` represents.
pub uninterp spec fn json_natural(text: Seq<char>, pointer: Seq<char>) -> Option<u64>;

/// As `json_integer`, for a string.
pub uninterp spec fn json_string(text: Seq<char>, pointer: Seq<char>) -> Option<Seq<char>>;

/// The JSON string literal for `s`, quotes included.
pub uninterp spec fn json_quoted(s: Seq<char>) -> Seq<char>;

/// The characters of an optional string.
pub open spec fn opt_text(s: Option<String>) -> Option<Seq<char>> {
    match s {
        Some(t) => Some(t@),
        None => None,
    }
}

/// Parses `text` with `serde_json::from_str` into a `serde_json::Value`, follows
/// `pointer` with `Value::pointer` and reads the value found with `Value::as_i64`.
/// Nothing is proved of it: the result is taken to be a function of the two
/// texts alone, named `json_integer`. `None` stands for every way to fail.
#[verifier::external_body]
pub(crate) fn read_integer(text: &str, pointer: &str) -> (r: Option<i64>)
    ensures
        r == json_integer(text@, pointer@),
{
    let value = serde_json::from_str::<serde_json::Value>(text).ok()?;
    value.pointer(pointer)?.as_i64()
}

/// Parses `text` with `serde_json::from_str` into a `serde_json::Value`, follows
/// `pointer` with `Value::pointer` and reads the value found with `Value::as_u64`.
/// Nothing is proved of it: the result is taken to be a function of the two
/// texts alone, named `json_natural`. `None` stands for every way to fail.
#[verifier::external_body]
pub(crate) fn read_natural(text: &str, pointer: &str) -> (r: Option<u64>)
    ensures
        r == json_natural(text@, pointer@),
{
    let value = serde_json::from_str::<serde_json::Value>(text).ok()?;
    value.pointer(pointer)?.as_u64()
}

/// Parses `text` with `serde_json::from_str` into a `serde_json::Value`, follows
/// `pointer` with `Value::pointer` and reads the value found with `Value::as_str`.
/// Nothing is proved of it: the result is taken to be a function of the two
/// texts alone, named `json_string`. `None` stands for every way to fail.
#[verifier::external_body]
pub(crate) fn read_string(text: &str, pointer: &str) -> (r: Option<String>)
    ensures
        opt_text(r) == json_string(text@, pointer@),
{
    let value = serde_json::from_str::<serde_json::Value>(text).ok()?;
    Some(value.pointer(pointer)?.as_str()?.to_owned())
}

/// Calls `serde_json::to_string` on a string slice. Nothing is proved of it: the
/// literal is taken to be a function of the characters alone, named
/// `json_quoted`.
#[verifier::external_body]
pub(crate) fn quote(s: &str) -> (r: String)
    ensures
        r@ == json_quoted(s@),
{
    match serde_json::to_string(s) {
        Ok(text) => text,
        Err(_) => String::new(),
    }
}

} // verus!
