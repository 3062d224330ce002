//! Trusted extraction of plain values from JSON response bodies, through
//! `serde_json`.
//!
//! Every extraction is a pure function of the body text, so each one's result
//! carries a name — an uninterpreted spec function over the text — that the
//! verified decoding functions state their contracts with. Nothing is assumed
//! of a name beyond its own wrapper's clause: it is whatever `serde_json`
//! finds in the document.

use vstd::prelude::*;

verus! {

/// Whether the body is a well-formed JSON document (whether `serde_json`
/// parses it).
pub uninterp spec fn json_parses(body: Seq<char>) -> bool;

/// The named top-level field of the body as a string; nothing when the body
/// does not parse to an object holding that field as a string.
pub uninterp spec fn string_field_of(body: Seq<char>, key: Seq<char>) -> Option<Seq<char>>;

/// The named top-level field of the body as an unsigned 64-bit number;
/// nothing when the body does not parse to an object holding one.
pub uninterp spec fn u64_field_of(body: Seq<char>, key: Seq<char>) -> Option<u64>;

/// The named top-level field of the body as a boolean; nothing when the body
/// does not parse to an object holding one.
pub uninterp spec fn bool_field_of(body: Seq<char>, key: Seq<char>) -> Option<bool>;

/// The element count of the body as a top-level JSON array; nothing when the
/// body does not parse to an array.
pub uninterp spec fn array_len_of(body: Seq<char>) -> Option<int>;

/// The `name` and `value` string fields of one element of the body as a
/// top-level JSON array; nothing when the body is not such an array or the
/// element lacks either field as a string.
pub uninterp spec fn pair_of(body: Seq<char>, index: int) -> Option<(Seq<char>, Seq<char>)>;

/// The element count of the named top-level array field of the body; nothing
/// when the body does not parse to an object holding that field as an array.
pub uninterp spec fn array_field_len_of(body: Seq<char>, key: Seq<char>) -> Option<int>;

/// The named string field of one element of the named top-level array field
/// of the body; nothing when any step of that path is absent or ill-typed.
pub uninterp spec fn array_item_string_of(
    body: Seq<char>,
    key: Seq<char>,
    index: int,
    item_key: Seq<char>,
) -> Option<Seq<char>>;

/// The string items a listing-like body yields: one per element of the named
/// array field, each the element's named string field or empty text for an
/// element without one; no items at all without such an array field.
pub open spec fn string_items_of(body: Seq<char>, key: Seq<char>, item_key: Seq<char>) -> Seq<
    Seq<char>,
> {
    match array_field_len_of(body, key) {
        Some(n) => Seq::new(
            n as nat,
            |i: int|
                match array_item_string_of(body, key, i, item_key) {
                    Some(s) => s,
                    None => Seq::empty(),
                },
        ),
        None => Seq::empty(),
    }
}

/// Relies on `serde_json::from_str`: whether the body parses as JSON at all.
#[verifier::external_body]
pub(crate) fn json_well_formed(body: &str) -> (r: bool)
    ensures
        r == json_parses(body@),
{
    serde_json::from_str::<serde_json::Value>(body).is_ok()
}

/// Relies on `serde_json::from_str`, `Value::get` and `Value::as_str`: the
/// named top-level string field.
#[verifier::external_body]
pub(crate) fn string_field(body: &str, key: &str) -> (r: Option<String>)
    ensures
        r.deep_view() == string_field_of(body@, key@),
{
    let v = serde_json::from_str::<serde_json::Value>(body).ok()?;
    Some(v.get(key)?.as_str()?.to_owned())
}

/// Relies on `serde_json::from_str`, `Value::get` and `Value::as_u64`: the
/// named top-level numeric field.
#[verifier::external_body]
pub(crate) fn u64_field(body: &str, key: &str) -> (r: Option<u64>)
    ensures
        r == u64_field_of(body@, key@),
{
    let v = serde_json::from_str::<serde_json::Value>(body).ok()?;
    v.get(key)?.as_u64()
}

/// Relies on `serde_json::from_str`, `Value::get` and `Value::as_bool`: the
/// named top-level boolean field.
#[verifier::external_body]
pub(crate) fn bool_field(body: &str, key: &str) -> (r: Option<bool>)
    ensures
        r == bool_field_of(body@, key@),
{
    let v = serde_json::from_str::<serde_json::Value>(body).ok()?;
    v.get(key)?.as_bool()
}

/// Relies on `serde_json::from_str` and `Value::as_array`: the element count
/// of a top-level array.
#[verifier::external_body]
pub(crate) fn array_len(body: &str) -> (r: Option<usize>)
    ensures
        match r {
            Some(n) => array_len_of(body@) == Some(n as int),
            None => array_len_of(body@) is None,
        },
{
    let v = serde_json::from_str::<serde_json::Value>(body).ok()?;
    v.as_array().map(|a| a.len())
}

/// Relies on `serde_json::from_str`, `Value::get` and `Value::as_str`: the
/// `name` and `value` string fields of one top-level array element.
#[verifier::external_body]
pub(crate) fn element_pair(body: &str, index: usize) -> (r: Option<(String, String)>)
    ensures
        r.deep_view() == pair_of(body@, index as int),
{
    let v = serde_json::from_str::<serde_json::Value>(body).ok()?;
    let e = v.get(index)?;
    let name = e.get("name")?.as_str()?.to_owned();
    let value = e.get("value")?.as_str()?.to_owned();
    Some((name, value))
}

/// Relies on `serde_json::from_str`, `Value::get` and `Value::as_array`: the
/// element count of the named top-level array field.
#[verifier::external_body]
pub(crate) fn array_field_len(body: &str, key: &str) -> (r: Option<usize>)
    ensures
        match r {
            Some(n) => array_field_len_of(body@, key@) == Some(n as int),
            None => array_field_len_of(body@, key@) is None,
        },
{
    let v = serde_json::from_str::<serde_json::Value>(body).ok()?;
    v.get(key)?.as_array().map(|a| a.len())
}

/// Relies on `serde_json::from_str`, `Value::get` and `Value::as_str`: the
/// named string field of one element of the named top-level array field.
#[verifier::external_body]
pub(crate) fn array_item_string(body: &str, key: &str, index: usize, item_key: &str) -> (r: Option<
    String,
>)
    ensures
        r.deep_view() == array_item_string_of(body@, key@, index as int, item_key@),
{
    let v = serde_json::from_str::<serde_json::Value>(body).ok()?;
    Some(v.get(key)?.get(index)?.get(item_key)?.as_str()?.to_owned())
}

} // verus!
