use vstd::prelude::*;

verus! {

/// Whether a byte sequence is a well-formed JSON document, as
/// `serde_json` accepts it.
pub uninterp spec fn json_parse_ok(bytes: Seq<u8>) -> bool;

/// Whether the document is JSON whose top-level object has `key`
/// present with a non-null value: a function of the bytes and key
/// alone.
pub uninterp spec fn json_field_nonnull_of(doc: Seq<u8>, key: Seq<char>) -> bool;

/// The string value of `key` in the document's top-level object, or
/// `None` when the document is not JSON or the field is absent or not
/// a string: a function of the bytes and key alone.
pub uninterp spec fn json_str_field_of(doc: Seq<u8>, key: Seq<char>) -> Option<Seq<char>>;

/// Whether the document is JSON whose `key1` object holds `key2` with a
/// non-null value: a function of the bytes and keys alone.
pub uninterp spec fn json_field2_nonnull_of(doc: Seq<u8>, key1: Seq<char>, key2: Seq<char>) -> bool;

/// The string value of `key2` inside the `key1` field of the document's
/// top-level object, or `None` when any step is absent or of the wrong
/// shape: a function of the bytes and keys alone.
pub uninterp spec fn json_str_field2_of(doc: Seq<u8>, key1: Seq<char>, key2: Seq<char>) -> Option<
    Seq<char>,
>;

/// Relies on serde_json's `from_slice::<Value>`: parsing succeeds
/// exactly on well-formed JSON documents, as a function of the input
/// alone.
#[verifier::external_body]
pub(crate) fn json_is_valid(doc: &[u8]) -> (r: bool)
    ensures
        r == json_parse_ok(doc@),
{
    serde_json::from_slice::<serde_json::Value>(doc).is_ok()
}

/// Relies on serde_json's `from_slice::<Value>`, `Value::get` and
/// `Value::is_null`: presence of a non-null field is a function of the
/// document and key alone.
#[verifier::external_body]
pub(crate) fn json_field_nonnull(doc: &[u8], key: &str) -> (r: bool)
    ensures
        r == json_field_nonnull_of(doc@, key@),
{
    match serde_json::from_slice::<serde_json::Value>(doc) {
        Ok(v) => match v.get(key) {
            Some(f) => !f.is_null(),
            None => false,
        },
        Err(_) => false,
    }
}

/// Relies on serde_json's `from_slice::<Value>`, `Value::get` and
/// `Value::as_str`: the string value of a field is a function of the
/// document and key alone.
#[verifier::external_body]
pub(crate) fn json_str_field(doc: &[u8], key: &str) -> (r: Option<String>)
    ensures
        r is Some <==> json_str_field_of(doc@, key@) is Some,
        r matches Some(s) ==> json_str_field_of(doc@, key@) == Some(s@),
{
    match serde_json::from_slice::<serde_json::Value>(doc) {
        Ok(v) => match v.get(key).and_then(|f| f.as_str()) {
            Some(s) => Some(s.to_string()),
            None => None,
        },
        Err(_) => None,
    }
}

/// Relies on serde_json's `from_slice::<Value>`, `Value::get` and
/// `Value::is_null`: presence of a non-null nested field is a function
/// of the document and keys alone.
#[verifier::external_body]
pub(crate) fn json_field2_nonnull(doc: &[u8], key1: &str, key2: &str) -> (r: bool)
    ensures
        r == json_field2_nonnull_of(doc@, key1@, key2@),
{
    match serde_json::from_slice::<serde_json::Value>(doc) {
        Ok(v) => match v.get(key1).and_then(|f| f.get(key2)) {
            Some(f) => !f.is_null(),
            None => false,
        },
        Err(_) => false,
    }
}

/// Relies on serde_json's `from_slice::<Value>`, `Value::get` and
/// `Value::as_str`: the string value of a nested field is a function of
/// the document and keys alone.
#[verifier::external_body]
pub(crate) fn json_str_field2(doc: &[u8], key1: &str, key2: &str) -> (r: Option<String>)
    ensures
        r is Some <==> json_str_field2_of(doc@, key1@, key2@) is Some,
        r matches Some(s) ==> json_str_field2_of(doc@, key1@, key2@) == Some(s@),
{
    match serde_json::from_slice::<serde_json::Value>(doc) {
        Ok(v) => match v.get(key1).and_then(|f| f.get(key2)).and_then(|f| f.as_str()) {
            Some(s) => Some(s.to_string()),
            None => None,
        },
        Err(_) => None,
    }
}

} // verus!
