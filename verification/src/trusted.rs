//! Wrappers around outside code that the verifier takes on trust.
//!
//! Every function here is `external_body`: its contract is assumed, not
//! proved, and each doc comment names the outside function relied on.
//! Everything else in the crate is verified against these contracts.

use vstd::prelude::*;
use crate::json::JsonMember;
use crate::json::JsonValue;

verus! {

#[verifier::external_type_specification]
#[verifier::external_body]
pub struct ExValue(serde_json::Value);

/// Relies on `serde_json::from_str`: parses JSON text into a document
/// tree, or fails on malformed text.  Nothing is promised of the
/// result; the callers handle every tree.
#[verifier::external_body]
pub fn parse_json_value(text: &str) -> Option<serde_json::Value> {
    serde_json::from_str(text).ok()
}

/// Relies on `serde_json::Value`: moves each variant of a parsed tree
/// into the library's document form, recursing through arrays and
/// objects.  A number that fits an `i64` is kept exactly, any other
/// number as its decimal text.  Object members come back in the
/// parser's order, which sorts them by key.
#[verifier::external_body]
pub fn json_of_value(v: serde_json::Value) -> JsonValue {
    match v {
        serde_json::Value::Null => JsonValue::Null,
        serde_json::Value::Bool(b) => JsonValue::Bool(b),
        serde_json::Value::Number(n) => match n.as_i64() {
            Some(i) => JsonValue::Int(i),
            None => JsonValue::Float(n.to_string()),
        },
        serde_json::Value::String(s) => JsonValue::Str(s),
        serde_json::Value::Array(a) => JsonValue::Arr(a.into_iter().map(json_of_value).collect()),
        serde_json::Value::Object(m) => JsonValue::Obj(
            m.into_iter().map(|(k, w)| JsonMember { key: k, value: json_of_value(w) }).collect(),
        ),
    }
}

/// The lower-case folding of a run of characters.
pub uninterp spec fn lower_of(s: Seq<char>) -> Seq<char>;

/// Relies on `str::to_lowercase`: the lowered text depends on the
/// characters alone.
#[verifier::external_body]
pub fn to_lowercase(s: &str) -> (r: String)
    ensures
        r@ == lower_of(s@),
{
    s.to_lowercase()
}

/// The percent-encoding of a run of characters: every byte of its
/// UTF-8 form except ASCII alphanumerics and `-`, `_`, `.`, `~` becomes
/// a `%` escape.
pub uninterp spec fn percent_encoded(s: Seq<char>) -> Seq<char>;

/// Relies on `urlencoding::encode`: the encoding depends on the
/// characters alone.
#[verifier::external_body]
pub fn percent_encode(s: &str) -> (r: String)
    ensures
        r@ == percent_encoded(s@),
{
    urlencoding::encode(s).into_owned()
}

/// Relies on `rand::random`: one byte from the thread's generator.
/// Nothing is promised of the value; callers state what holds of every
/// outcome.
#[verifier::external_body]
pub fn random_byte() -> u8 {
    rand::random::<u8>()
}

/// Relies on `std::time::SystemTime`: the seconds elapsed since the
/// UNIX epoch, or zero if the clock stands before the epoch.  Nothing
/// is promised of the reading; callers state what holds of every value.
#[verifier::external_body]
pub fn unix_now() -> u64 {
    match std::time::SystemTime::now().duration_since(std::time::UNIX_EPOCH) {
        Ok(elapsed) => elapsed.as_secs(),
        Err(_) => 0,
    }
}

/// Relies on `String::push`: appends the given character to the end of
/// the string.
#[verifier::external_body]
pub fn push_char(s: &mut String, c: char)
    ensures
        final(s)@ == old(s)@ + seq![c],
{
    s.push(c);
}

} // verus!
