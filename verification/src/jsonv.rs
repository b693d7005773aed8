//! Trusted boundary to serde_json: reading one member out of a JSON text.
//! Each lookup is a function of the text and the key path alone, so its
//! result carries a name that the frame decoders' contracts speak about
//! exactly; `None` stands for malformed text, an absent member, or a member
//! of another kind.

use vstd::prelude::*;

verus! {

/// The member under a top-level key, as an unsigned integer.
pub uninterp spec fn json_u64_field_of(s: Seq<char>, key: Seq<char>) -> Option<u64>;

/// The member under a two-key path, as an unsigned integer.
pub uninterp spec fn json_u64_field2_of(s: Seq<char>, k1: Seq<char>, k2: Seq<char>) -> Option<u64>;

/// The member under a top-level key, as text.
pub uninterp spec fn json_str_field_of(s: Seq<char>, key: Seq<char>) -> Option<Seq<char>>;

/// The member under a two-key path, as text.
pub uninterp spec fn json_str_field2_of(s: Seq<char>, k1: Seq<char>, k2: Seq<char>) -> Option<
    Seq<char>,
>;

/// The member under a three-key path, as text.
pub uninterp spec fn json_str_field3_of(
    s: Seq<char>,
    k1: Seq<char>,
    k2: Seq<char>,
    k3: Seq<char>,
) -> Option<Seq<char>>;

/// The member under a four-key path, as text.
pub uninterp spec fn json_str_field4_of(
    s: Seq<char>,
    k1: Seq<char>,
    k2: Seq<char>,
    k3: Seq<char>,
    k4: Seq<char>,
) -> Option<Seq<char>>;

/// Whether the text is a JSON object with a member under this key.
pub uninterp spec fn json_has_field_of(s: Seq<char>, key: Seq<char>) -> bool;

/// Relies on serde_json (`from_str`, `Value::get`, `Value::as_u64`): the
/// result depends on the text and key alone.
#[verifier::external_body]
pub fn json_u64_field(text: &str, key: &str) -> (r: Option<u64>)
    ensures
        r == json_u64_field_of(text@, key@),
{
    serde_json::from_str::<serde_json::Value>(text)
        .ok()
        .and_then(|v| v.get(key).and_then(|f| f.as_u64()))
}

/// Relies on serde_json (`from_str`, `Value::get`, `Value::as_u64`): the
/// result depends on the text and keys alone.
#[verifier::external_body]
pub fn json_u64_field2(text: &str, k1: &str, k2: &str) -> (r: Option<u64>)
    ensures
        r == json_u64_field2_of(text@, k1@, k2@),
{
    serde_json::from_str::<serde_json::Value>(text)
        .ok()
        .and_then(|v| v.get(k1).and_then(|f| f.get(k2)).and_then(|f| f.as_u64()))
}

/// Relies on serde_json (`from_str`, `Value::get`, `Value::as_str`): the
/// result depends on the text and key alone.
#[verifier::external_body]
pub fn json_str_field(text: &str, key: &str) -> (r: Option<String>)
    ensures
        r is Some <==> json_str_field_of(text@, key@) is Some,
        r matches Some(v) ==> json_str_field_of(text@, key@) == Some(v@),
{
    serde_json::from_str::<serde_json::Value>(text)
        .ok()
        .and_then(|v| v.get(key).and_then(|f| f.as_str()).map(String::from))
}

/// Relies on serde_json (`from_str`, `Value::get`, `Value::as_str`): the
/// result depends on the text and keys alone.
#[verifier::external_body]
pub fn json_str_field2(text: &str, k1: &str, k2: &str) -> (r: Option<String>)
    ensures
        r is Some <==> json_str_field2_of(text@, k1@, k2@) is Some,
        r matches Some(v) ==> json_str_field2_of(text@, k1@, k2@) == Some(v@),
{
    serde_json::from_str::<serde_json::Value>(text)
        .ok()
        .and_then(|v| v.get(k1).and_then(|f| f.get(k2)).and_then(|f| f.as_str()).map(String::from))
}

/// Relies on serde_json (`from_str`, `Value::get`, `Value::as_str`): the
/// result depends on the text and keys alone.
#[verifier::external_body]
pub fn json_str_field3(text: &str, k1: &str, k2: &str, k3: &str) -> (r: Option<String>)
    ensures
        r is Some <==> json_str_field3_of(text@, k1@, k2@, k3@) is Some,
        r matches Some(v) ==> json_str_field3_of(text@, k1@, k2@, k3@) == Some(v@),
{
    serde_json::from_str::<serde_json::Value>(text)
        .ok()
        .and_then(|v| {
            v.get(k1)
                .and_then(|f| f.get(k2))
                .and_then(|f| f.get(k3))
                .and_then(|f| f.as_str())
                .map(String::from)
        })
}

/// Relies on serde_json (`from_str`, `Value::get`, `Value::as_str`): the
/// result depends on the text and keys alone.
#[verifier::external_body]
pub fn json_str_field4(text: &str, k1: &str, k2: &str, k3: &str, k4: &str) -> (r: Option<String>)
    ensures
        r is Some <==> json_str_field4_of(text@, k1@, k2@, k3@, k4@) is Some,
        r matches Some(v) ==> json_str_field4_of(text@, k1@, k2@, k3@, k4@) == Some(v@),
{
    serde_json::from_str::<serde_json::Value>(text)
        .ok()
        .and_then(|v| {
            v.get(k1)
                .and_then(|f| f.get(k2))
                .and_then(|f| f.get(k3))
                .and_then(|f| f.get(k4))
                .and_then(|f| f.as_str())
                .map(String::from)
        })
}

/// Relies on serde_json (`from_str`, `Value::get`): whether the member is
/// present, a function of the text and key alone.
#[verifier::external_body]
pub fn json_has_field(text: &str, key: &str) -> (r: bool)
    ensures
        r == json_has_field_of(text@, key@),
{
    serde_json::from_str::<serde_json::Value>(text)
        .ok()
        .and_then(|v| v.get(key).map(|_| ()))
        .is_some()
}

/// The text of an optional member, an absent one standing for empty text.
pub open spec fn oseq_or_empty(o: Option<Seq<char>>) -> Seq<char> {
    match o {
        Some(s) => s,
        None => Seq::empty(),
    }
}

} // verus!
