//! The token verifier: `base64(payload) "." base64(HMAC-SHA256(secret, base64(payload)))`.

use vstd::prelude::*;
use vstd::slice::slice_subrange;
use vstd::string::{StringExecFns, StringSliceAdditionalSpecFns};
use vstd::utf8::{encode_utf8, is_ascii_chars, is_ascii_chars_encode_utf8};
use crate::primitives::{
    base64_decode, base64_decoded, base64_encode, decimal_text, hmac_check, hmac_sha256, hmac_tag,
    json_as_string, json_document, json_get, json_i64, json_member, json_str, parse_json, unix_now,
};

verus! {

/// The byte `.` that separates the two segments of a token.
pub const DOT: u8 = 46;

/// Why a presented credential was rejected.
#[derive(Clone, Copy, Debug, PartialEq, Eq, Structural)]
pub enum Rejection {
    /// The token is not exactly two dot-separated segments.
    MalformedToken,
    /// The first segment is not valid standard base64.
    BodyNotBase64,
    /// The signing key could not be set up.
    SigningKeyUnusable,
    /// The signature does not match the body.
    SignatureMismatch,
    /// The decoded body is not JSON.
    PayloadNotJson,
    /// The claims carry an expiry that lies in the past.
    Expired,
    /// The authorization header does not use the Bearer scheme.
    NotBearer,
}

/// The diagnostic text of each rejection.
pub open spec fn reason_text(r: Rejection) -> Seq<char> {
    match r {
        Rejection::MalformedToken => "token format must be body.signature"@,
        Rejection::BodyNotBase64 => "body is not valid base64"@,
        Rejection::SigningKeyUnusable => "failed to load signing key"@,
        Rejection::SignatureMismatch => "signature mismatch"@,
        Rejection::PayloadNotJson => "payload is not valid JSON"@,
        Rejection::Expired => "token expired"@,
        Rejection::NotBearer => "authorization header must be Bearer"@,
    }
}

impl Rejection {
    /// The short diagnostic string reported for this rejection.
    pub fn reason(&self) -> (r: &'static str)
        ensures
            r@ == reason_text(*self),
    {
        match self {
            Rejection::MalformedToken => "token format must be body.signature",
            Rejection::BodyNotBase64 => "body is not valid base64",
            Rejection::SigningKeyUnusable => "failed to load signing key",
            Rejection::SignatureMismatch => "signature mismatch",
            Rejection::PayloadNotJson => "payload is not valid JSON",
            Rejection::Expired => "token expired",
            Rejection::NotBearer => "authorization header must be Bearer",
        }
    }
}

/// The outcome of checking a request's credential.
#[derive(Debug, PartialEq, Eq)]
pub enum TokenStatus {
    /// No credential was supplied.
    Missing,
    /// The credential was accepted.
    Valid { sub: String, email: Option<String> },
    /// The credential was present and rejected.
    Invalid(Rejection),
}

/// `TokenStatus` with its strings as character sequences.
pub enum StatusView {
    Missing,
    Valid { sub: Seq<char>, email: Option<Seq<char>> },
    Invalid(Rejection),
}

/// An optional string as characters.
pub open spec fn opt_view(s: Option<String>) -> Option<Seq<char>> {
    match s {
        Some(t) => Some(t@),
        None => None,
    }
}

impl View for TokenStatus {
    type V = StatusView;

    open spec fn view(&self) -> StatusView {
        match self {
            TokenStatus::Missing => StatusView::Missing,
            TokenStatus::Valid { sub, email } => StatusView::Valid { sub: sub@, email: opt_view(*email) },
            TokenStatus::Invalid(r) => StatusView::Invalid(*r),
        }
    }
}

/// `i` is the position of the one and only `.` in `t`.
pub open spec fn sole_dot_at(t: Seq<u8>, i: int) -> bool {
    &&& 0 <= i < t.len()
    &&& t[i] == DOT
    &&& forall|j: int| 0 <= j < t.len() && j != i ==> t[j] != DOT
}

/// Splitting `t` on `.` gives exactly two segments.
pub open spec fn has_two_segments(t: Seq<u8>) -> bool {
    exists|i: int| sole_dot_at(t, i)
}

/// The position of the dot of a two-segment token.
pub open spec fn dot_index(t: Seq<u8>) -> int {
    choose|i: int| sole_dot_at(t, i)
}

/// The encoded payload: what comes before the dot.
pub open spec fn body_segment(t: Seq<u8>) -> Seq<u8> {
    t.subrange(0, dot_index(t))
}

/// The encoded signature: what comes after the dot.
pub open spec fn signature_segment(t: Seq<u8>) -> Seq<u8> {
    t.subrange(dot_index(t) + 1, t.len() as int)
}

/// The signature bytes a token presents: a segment that is not base64 counts as empty.
pub open spec fn presented_signature(s: Seq<u8>) -> Seq<u8> {
    match base64_decoded(s) {
        Some(b) => b,
        None => Seq::empty(),
    }
}

/// Decimal notation of an integer, with a leading `-` when negative.
pub open spec fn decimal(n: int) -> Seq<char> {
    if n < 0 {
        seq!['-'] + digits(-n)
    } else {
        digits(n)
    }
}

/// The decimal digits of a natural number, most significant first.
pub open spec fn digits(n: int) -> Seq<char>
    decreases n,
{
    if n < 10 {
        seq![digit_char(n)]
    } else {
        digits(n / 10).push(digit_char(n % 10))
    }
}

/// The character of a decimal digit.
pub open spec fn digit_char(d: int) -> char {
    if d == 0 { '0' } else if d == 1 { '1' } else if d == 2 { '2' } else if d == 3 { '3' }
    else if d == 4 { '4' } else if d == 5 { '5' } else if d == 6 { '6' } else if d == 7 { '7' }
    else if d == 8 { '8' } else { '9' }
}

/// The expiry claim: `exp` when it is an `i64` integer, else 0 (never expires).
pub open spec fn claim_exp(doc: serde_json::Value) -> int {
    match json_member(doc, "exp"@) {
        Some(v) => match json_i64(v) {
            Some(n) => n as int,
            None => 0,
        },
        None => 0,
    }
}

/// The subject claim: an integer `sub` in decimal, a string `sub` as it is, else `unknown`.
pub open spec fn claim_sub(doc: serde_json::Value) -> Seq<char> {
    match json_member(doc, "sub"@) {
        Some(v) => match json_i64(v) {
            Some(n) => decimal(n as int),
            None => match json_str(v) {
                Some(s) => s,
                None => "unknown"@,
            },
        },
        None => "unknown"@,
    }
}

/// The email claim: a string `email`, if there is one.
pub open spec fn claim_email(doc: serde_json::Value) -> Option<Seq<char>> {
    match json_member(doc, "email"@) {
        Some(v) => json_str(v),
        None => None,
    }
}

/// The outcome for decoded claims at time `now`.
pub open spec fn claims_outcome(doc: serde_json::Value, now: int) -> StatusView {
    if claim_exp(doc) > 0 && now > claim_exp(doc) {
        StatusView::Invalid(Rejection::Expired)
    } else {
        StatusView::Valid { sub: claim_sub(doc), email: claim_email(doc) }
    }
}

/// The outcome of verifying the token bytes `t` with `secret` at time `now`: each check
/// in turn, the first that fails deciding the rejection.
pub open spec fn token_outcome(t: Seq<u8>, secret: Seq<u8>, now: int) -> StatusView {
    if !has_two_segments(t) {
        StatusView::Invalid(Rejection::MalformedToken)
    } else {
        match base64_decoded(body_segment(t)) {
            None => StatusView::Invalid(Rejection::BodyNotBase64),
            Some(body) => match hmac_sha256(secret, body_segment(t)) {
                None => StatusView::Invalid(Rejection::SigningKeyUnusable),
                Some(tag) => if tag != presented_signature(signature_segment(t)) {
                    StatusView::Invalid(Rejection::SignatureMismatch)
                } else {
                    match json_document(body) {
                        None => StatusView::Invalid(Rejection::PayloadNotJson),
                        Some(doc) => claims_outcome(doc, now),
                    }
                },
            },
        }
    }
}

/// The position of the only `.` in `t`, if `t` holds exactly one.
fn find_sole_dot(t: &[u8]) -> (r: Option<usize>)
    ensures
        match r {
            Some(i) => sole_dot_at(t@, i as int),
            None => !has_two_segments(t@),
        },
{
    let mut i: usize = 0;
    let mut first: Option<usize> = None;
    while i < t.len()
        invariant
            i <= t@.len(),
            match first {
                Some(f) => f < i && t@[f as int] == DOT && forall|j: int|
                    0 <= j < i && j != f ==> t@[j] != DOT,
                None => forall|j: int| 0 <= j < i ==> t@[j] != DOT,
            },
        decreases t.len() - i,
    {
        if t[i] == DOT {
            if let Some(f) = first {
                assert forall|k: int| !sole_dot_at(t@, k) by {
                    if k != f as int {
                        assert(t@[f as int] == DOT);
                    } else {
                        assert(t@[i as int] == DOT);
                    }
                }
                return None;
            }
            first = Some(i);
        }
        i += 1;
    }
    if first.is_none() {
        assert forall|k: int| !sole_dot_at(t@, k) by {
            if 0 <= k < t@.len() {
                assert(t@[k] != DOT);
            }
        }
    }
    first
}

/// The subject of the claims, normalised to a string.
fn read_sub(doc: &serde_json::Value) -> (r: String)
    ensures
        r@ == claim_sub(*doc),
{
    match json_get(doc, "sub") {
        Some(v) => match v.as_i64() {
            Some(n) => decimal_text(n),
            None => match json_as_string(&v) {
                Some(s) => s,
                None => String::from_str("unknown"),
            },
        },
        None => String::from_str("unknown"),
    }
}

/// The verdict on decoded claims at time `now`.
pub fn check_claims(doc: &serde_json::Value, now: i64) -> (r: TokenStatus)
    ensures
        r@ == claims_outcome(*doc, now as int),
{
    let exp: i64 = match json_get(doc, "exp") {
        Some(v) => match v.as_i64() {
            Some(n) => n,
            None => 0,
        },
        None => 0,
    };
    if exp > 0 && now > exp {
        return TokenStatus::Invalid(Rejection::Expired);
    }
    let sub = read_sub(doc);
    let email = match json_get(doc, "email") {
        Some(v) => json_as_string(&v),
        None => None,
    };
    TokenStatus::Valid { sub, email }
}

/// Verifies `token` with `secret` as at time `now` (seconds since the Unix epoch).
pub fn validate_token_at(token: &str, secret: &str, now: i64) -> (r: TokenStatus)
    ensures
        r@ == token_outcome(token.spec_bytes(), secret.spec_bytes(), now as int),
{
    let t = token.as_bytes();
    let i = match find_sole_dot(t) {
        Some(i) => i,
        None => return TokenStatus::Invalid(Rejection::MalformedToken),
    };
    proof {
        assert(dot_index(t@) == i as int) by {
            let k = dot_index(t@);
            if k != i as int {
                assert(t@[i as int] == DOT);
            }
        }
    }
    assert(sole_dot_at(t@, i as int));
    let n: usize = t.len();
    assert(i < n);
    let body_text = slice_subrange(t, 0, i);
    let sig_text = slice_subrange(t, i + 1, n);
    assert(body_text@ == body_segment(t@));
    assert(sig_text@ == signature_segment(t@));
    let body = match base64_decode(body_text) {
        Some(b) => b,
        None => return TokenStatus::Invalid(Rejection::BodyNotBase64),
    };
    let signature = match base64_decode(sig_text) {
        Some(s) => s,
        None => Vec::new(),
    };
    assert(signature@ == presented_signature(sig_text@));
    match hmac_check(secret.as_bytes(), body_text, signature.as_slice()) {
        None => return TokenStatus::Invalid(Rejection::SigningKeyUnusable),
        Some(false) => return TokenStatus::Invalid(Rejection::SignatureMismatch),
        Some(true) => {},
    }
    let doc = match parse_json(body.as_slice()) {
        Some(d) => d,
        None => return TokenStatus::Invalid(Rejection::PayloadNotJson),
    };
    check_claims(&doc, now)
}

/// Verifies `token` with `secret` against the current clock.
pub fn validate_token(token: &str, secret: &str) -> (r: TokenStatus)
    ensures
        exists|now: i64| r@ == token_outcome(token.spec_bytes(), secret.spec_bytes(), now as int),
{
    let now = unix_now();
    validate_token_at(token, secret, now)
}

/// The token bytes `t` were issued for `payload` under `secret`: `t` is a body
/// segment, its only dot and a signature segment, where the body decodes to `payload`
/// and the signature decodes to the body's HMAC-SHA256 tag under `secret`.
pub open spec fn issued_for(t: Seq<u8>, payload: Seq<u8>, secret: Seq<u8>) -> bool {
    exists|i: int|
        {
            &&& #[trigger] sole_dot_at(t, i)
            &&& base64_decoded(t.subrange(0, i)) == Some(payload)
            &&& hmac_sha256(secret, t.subrange(0, i)) is Some
            &&& base64_decoded(t.subrange(i + 1, t.len() as int)) == hmac_sha256(secret, t.subrange(0, i))
        }
}

/// Issues a token for `payload` signed with `secret`; `None` when the key is refused.
pub fn issue_token(payload: &[u8], secret: &str) -> (r: Option<String>)
    requires
        4 * ((payload@.len() + 2) / 3) <= usize::MAX,
    ensures
        match r {
            Some(t) => issued_for(encode_utf8(t@), payload@, secret.spec_bytes()),
            None => exists|body: Seq<u8>|
                base64_decoded(body) == Some(payload@) && hmac_sha256(secret.spec_bytes(), body) is None,
        },
{
    let body = base64_encode(payload);
    let body_bytes = body.as_str().as_bytes();
    let tag = match hmac_tag(secret.as_bytes(), body_bytes) {
        Some(t) => t,
        None => return None,
    };
    let sig = base64_encode(tag.as_slice());
    let token = body.clone().concat(".").concat(sig.as_str());
    proof {
        reveal_strlit(".");
        let b = body@;
        let s = sig@;
        let c = token@;
        let i = b.len() as int;
        assert(c =~= b + seq!['.'] + s);
        assert(is_ascii_chars(c));
        is_ascii_chars_encode_utf8(c);
        is_ascii_chars_encode_utf8(b);
        is_ascii_chars_encode_utf8(s);
        let tb = encode_utf8(c);
        assert(tb.subrange(0, i) =~= encode_utf8(b));
        assert(tb.subrange(i + 1, tb.len() as int) =~= encode_utf8(s));
        assert(tb[i] == DOT);
        assert forall|j: int| 0 <= j < tb.len() && j != i implies tb[j] != DOT by {
            if j < i {
                assert(c[j] == b[j]);
            } else {
                assert(c[j] == s[j - i - 1]);
            }
        }
        assert(sole_dot_at(tb, i));
    }
    Some(token)
}

} // verus!
