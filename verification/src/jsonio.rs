use vstd::prelude::*;

verus! {

/// The string value at top-level key `key` of the JSON document encoded by
/// `bytes`; `None` when the bytes do not decode as JSON, the key is absent,
/// or the value there is not a string.
pub uninterp spec fn json_str_at(bytes: Seq<u8>, key: Seq<char>) -> Option<Seq<char>>;

/// The value at top-level key `key` when it is an integer representable as
/// `u64`; `None` otherwise (including undecodable bytes and absent keys).
pub uninterp spec fn json_u64_at(bytes: Seq<u8>, key: Seq<char>) -> Option<u64>;

/// The value at top-level key `key` when it is an integer representable as
/// `i64`; `None` otherwise (including undecodable bytes and absent keys).
pub uninterp spec fn json_i64_at(bytes: Seq<u8>, key: Seq<char>) -> Option<i64>;

/// The decimal display text of the numeric value at top-level key `key`;
/// `None` when the bytes do not decode, the key is absent, or the value
/// there is not a number.
pub uninterp spec fn json_num_text_at(bytes: Seq<u8>, key: Seq<char>) -> Option<Seq<char>>;

/// The lowercase form of a character sequence.
pub uninterp spec fn lowered(s: Seq<char>) -> Seq<char>;

/// Relies on serde_json::from_slice::<Value>, Value::get and Value::as_str:
/// looks up the string at a top-level key of the JSON document encoded by
/// `buf`. The result depends on the bytes and the key alone.
#[verifier::external_body]
pub(crate) fn json_str_field(buf: &[u8], key: &str) -> (r: Option<String>)
    ensures
        r matches Some(s) ==> json_str_at(buf@, key@) == Some(s@),
        r is None ==> json_str_at(buf@, key@) is None,
{
    let v: serde_json::Value = match serde_json::from_slice(buf) {
        Ok(v) => v,
        Err(_) => return None,
    };
    v.get(key).and_then(serde_json::Value::as_str).map(str::to_string)
}

/// Relies on serde_json::from_slice::<Value>, Value::get and Value::as_u64:
/// looks up the `u64` integer at a top-level key of the JSON document encoded
/// by `buf`. The result depends on the bytes and the key alone.
#[verifier::external_body]
pub(crate) fn json_u64_field(buf: &[u8], key: &str) -> (r: Option<u64>)
    ensures
        r == json_u64_at(buf@, key@),
{
    let v: serde_json::Value = match serde_json::from_slice(buf) {
        Ok(v) => v,
        Err(_) => return None,
    };
    v.get(key).and_then(serde_json::Value::as_u64)
}

/// Relies on serde_json::from_slice::<Value>, Value::get and Value::as_i64:
/// looks up the `i64` integer at a top-level key of the JSON document encoded
/// by `buf`. The result depends on the bytes and the key alone.
#[verifier::external_body]
pub(crate) fn json_i64_field(buf: &[u8], key: &str) -> (r: Option<i64>)
    ensures
        r == json_i64_at(buf@, key@),
{
    let v: serde_json::Value = match serde_json::from_slice(buf) {
        Ok(v) => v,
        Err(_) => return None,
    };
    v.get(key).and_then(serde_json::Value::as_i64)
}

/// Relies on serde_json::from_slice::<Value>, Value::get, Value::as_f64 and
/// the number's default display: looks up the number at a top-level key of
/// the JSON document encoded by `buf` and renders it as decimal text. The
/// result depends on the bytes and the key alone.
#[verifier::external_body]
pub(crate) fn json_num_text_field(buf: &[u8], key: &str) -> (r: Option<String>)
    ensures
        r matches Some(s) ==> json_num_text_at(buf@, key@) == Some(s@),
        r is None ==> json_num_text_at(buf@, key@) is None,
{
    let v: serde_json::Value = match serde_json::from_slice(buf) {
        Ok(v) => v,
        Err(_) => return None,
    };
    v.get(key).and_then(serde_json::Value::as_f64).map(|x| format!("{}", x))
}

/// Relies on str::to_lowercase: the result depends on the characters of the
/// input alone.
#[verifier::external_body]
pub(crate) fn lowercase(s: &str) -> (r: String)
    ensures
        r@ == lowered(s@),
{
    s.to_lowercase()
}

} // verus!
