//! The calls this library makes into base64, hmac/sha2, serde_json, chrono and std,
//! each with the contract it is relied on for.

use vstd::prelude::*;
use vstd::utf8::{encode_utf8, is_ascii_chars};
use base64::Engine;
use hmac::Mac;

verus! {

#[verifier::external_type_specification]
#[verifier::external_body]
pub struct ExJsonValue(serde_json::Value);

/// The bytes that standard base64 (with padding) decodes `text` to, or `None` when
/// `text` is not valid standard base64.
pub uninterp spec fn base64_decoded(text: Seq<u8>) -> Option<Seq<u8>>;

/// The HMAC-SHA256 tag of `msg` under `key`, or `None` when the key is refused.
pub uninterp spec fn hmac_sha256(key: Seq<u8>, msg: Seq<u8>) -> Option<Seq<u8>>;

/// The JSON value that `text` holds, or `None` when `text` is not JSON.
pub uninterp spec fn json_document(text: Seq<u8>) -> Option<serde_json::Value>;

/// The member named `key` of a JSON object; `None` for a missing key or a non-object.
pub uninterp spec fn json_member(v: serde_json::Value, key: Seq<char>) -> Option<serde_json::Value>;

/// A JSON number that is an integer representable as `i64`; `None` otherwise.
pub uninterp spec fn json_i64(v: serde_json::Value) -> Option<i64>;

/// A JSON string's characters; `None` for any other kind of value.
pub uninterp spec fn json_str(v: serde_json::Value) -> Option<Seq<char>>;

/// Relies on base64's `general_purpose::STANDARD.decode`: it decodes padded standard
/// base64 and reports malformed input as an error.
#[verifier::external_body]
pub(crate) fn base64_decode(text: &[u8]) -> (r: Option<Vec<u8>>)
    ensures
        match r {
            Some(v) => base64_decoded(text@) == Some(v@),
            None => base64_decoded(text@) is None,
        },
{
    base64::engine::general_purpose::STANDARD.decode(text).ok()
}

/// Relies on base64's `general_purpose::STANDARD.encode`: the text uses only the
/// alphabet `A-Z a-z 0-9 + /` and `=` padding, and `STANDARD.decode` gives the data back.
/// It panics when the length of the text, four characters for every three bytes begun,
/// overflows `usize`.
#[verifier::external_body]
pub(crate) fn base64_encode(data: &[u8]) -> (r: String)
    requires
        4 * ((data@.len() + 2) / 3) <= usize::MAX,
    ensures
        is_ascii_chars(r@),
        forall|i: int| 0 <= i < r@.len() ==> r@[i] != '.',
        base64_decoded(encode_utf8(r@)) == Some(data@),
{
    base64::engine::general_purpose::STANDARD.encode(data)
}

/// Relies on hmac's `Hmac::<Sha256>::new_from_slice`, `Mac::update` and `Mac::finalize`:
/// the HMAC-SHA256 tag of `msg` under `key`, 32 bytes long.
#[verifier::external_body]
pub(crate) fn hmac_tag(key: &[u8], msg: &[u8]) -> (r: Option<Vec<u8>>)
    ensures
        match r {
            Some(t) => hmac_sha256(key@, msg@) == Some(t@) && t@.len() == 32,
            None => hmac_sha256(key@, msg@) is None,
        },
{
    let mut mac = <hmac::Hmac<sha2::Sha256> as Mac>::new_from_slice(key).ok()?;
    mac.update(msg);
    Some(mac.finalize().into_bytes().to_vec())
}

/// Relies on hmac's `Hmac::<Sha256>::new_from_slice`, `Mac::update` and
/// `Mac::verify_slice`: a constant-time test that `tag` equals the HMAC-SHA256 tag of
/// `msg` under `key` (a tag of another length never matches).
#[verifier::external_body]
pub(crate) fn hmac_check(key: &[u8], msg: &[u8], tag: &[u8]) -> (r: Option<bool>)
    ensures
        match hmac_sha256(key@, msg@) {
            Some(t) => r == Some(t == tag@),
            None => r is None,
        },
{
    let mut mac = <hmac::Hmac<sha2::Sha256> as Mac>::new_from_slice(key).ok()?;
    mac.update(msg);
    Some(mac.verify_slice(tag).is_ok())
}

/// Relies on `serde_json::from_slice::<serde_json::Value>`: the JSON value held by
/// `text`, or an error when it is not JSON.
#[verifier::external_body]
pub(crate) fn parse_json(text: &[u8]) -> (r: Option<serde_json::Value>)
    ensures
        r == json_document(text@),
{
    serde_json::from_slice::<serde_json::Value>(text).ok()
}

/// Relies on `serde_json::Value::get` with a string index: an object's member.
#[verifier::external_body]
pub(crate) fn json_get(v: &serde_json::Value, key: &str) -> (r: Option<serde_json::Value>)
    ensures
        r == json_member(*v, key@),
{
    v.get(key).cloned()
}

/// Relies on `serde_json::Value::as_i64`: an integer that fits in `i64`.
pub assume_specification[ serde_json::Value::as_i64 ](v: &serde_json::Value) -> (r: Option<i64>)
    ensures
        r == json_i64(*v),
;

/// Relies on `serde_json::Value::as_str`: the contents of a JSON string.
#[verifier::external_body]
pub(crate) fn json_as_string(v: &serde_json::Value) -> (r: Option<String>)
    ensures
        match r {
            Some(s) => json_str(*v) == Some(s@),
            None => json_str(*v) is None,
        },
{
    v.as_str().map(String::from)
}

/// Relies on chrono's `Utc::now().timestamp()`: the current time in seconds since
/// the Unix epoch. Nothing is known of the value.
#[verifier::external_body]
pub(crate) fn unix_now() -> (r: i64) {
    chrono::Utc::now().timestamp()
}

} // verus!

verus! {

/// Relies on `i64::to_string` (std's `Display` for integers): decimal digits, with a
/// leading `-` for a negative number.
#[verifier::external_body]
pub(crate) fn decimal_text(n: i64) -> (r: String)
    ensures
        r@ == crate::token::decimal(n as int),
{
    n.to_string()
}

} // verus!

verus! {

/// Unicode `White_Space`, the characters that `str::trim` removes.
pub open spec fn is_white_space(c: char) -> bool {
    ||| ('\u{9}' <= c && c <= '\u{d}')
    ||| c == ' '
    ||| c == '\u{85}'
    ||| c == '\u{a0}'
    ||| c == '\u{1680}'
    ||| ('\u{2000}' <= c && c <= '\u{200a}')
    ||| c == '\u{2028}'
    ||| c == '\u{2029}'
    ||| c == '\u{202f}'
    ||| c == '\u{205f}'
    ||| c == '\u{3000}'
}

/// `s` without its leading white space.
pub open spec fn trim_start(s: Seq<char>) -> Seq<char>
    decreases s.len(),
{
    if s.len() > 0 && is_white_space(s[0]) {
        trim_start(s.drop_first())
    } else {
        s
    }
}

/// `s` without its trailing white space.
pub open spec fn trim_end(s: Seq<char>) -> Seq<char>
    decreases s.len(),
{
    if s.len() > 0 && is_white_space(s.last()) {
        trim_end(s.drop_last())
    } else {
        s
    }
}

/// Relies on `str::trim`: the slice without leading and trailing `White_Space`.
#[verifier::external_body]
pub(crate) fn trim_white_space(s: &str) -> (r: &str)
    ensures
        r@ == trim_end(trim_start(s@)),
{
    s.trim()
}

} // verus!
