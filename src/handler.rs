//! The decisions of the echo endpoint: which credential a request presents, and the reply.

use vstd::prelude::*;
use vstd::string::{StrSliceExecFns, StringSliceAdditionalSpecFns};
use vstd::utf8::encode_utf8;
use crate::primitives::{trim_end, trim_start, trim_white_space, unix_now};
use crate::token::{token_outcome, validate_token_at, Rejection, StatusView, TokenStatus};

verus! {

/// The fixed note sent with every echo reply.
pub const NOTE: &'static str = "This endpoint echoes payloads and validates the Worker-issued token.";

/// The message echoed when a request carries none.
pub const DEFAULT_MESSAGE: &'static str = "ping";

/// The scheme prefix of a bearer credential, in lower case.
pub open spec fn bearer_word() -> Seq<char> {
    seq!['b', 'e', 'a', 'r', 'e', 'r', ' ']
}

/// `c` is `lower` or, for an ASCII letter, its upper-case form.
pub open spec fn folds_to(c: char, lower: char) -> bool {
    c == lower || ('a' <= lower && lower <= 'z' && c as u32 + 32 == lower as u32)
}

/// The header value starts with `bearer `, ignoring case.
pub open spec fn is_bearer(h: Seq<char>) -> bool {
    h.len() >= 7 && forall|i: int| 0 <= i < 7 ==> folds_to(#[trigger] h[i], bearer_word()[i])
}

/// The credential a bearer header carries: what follows the scheme, trimmed.
pub open spec fn bearer_token(h: Seq<char>) -> Seq<char> {
    trim_end(trim_start(h.subrange(7, h.len() as int)))
}

/// An optional header value as characters.
pub open spec fn opt_str_view(h: Option<&str>) -> Option<Seq<char>> {
    match h {
        Some(s) => Some(s@),
        None => None,
    }
}

/// The token status for an optional `Authorization` header value at time `now`.
pub open spec fn header_outcome(h: Option<Seq<char>>, secret: Seq<u8>, now: int) -> StatusView {
    match h {
        None => StatusView::Missing,
        Some(v) => if is_bearer(v) {
            token_outcome(encode_utf8(bearer_token(v)), secret, now)
        } else {
            StatusView::Invalid(Rejection::NotBearer)
        },
    }
}

fn bearer_char(i: usize) -> (c: char)
    requires
        i < 7,
    ensures
        c == bearer_word()[i as int],
{
    if i == 0 { 'b' } else if i == 1 { 'e' } else if i == 2 { 'a' } else if i == 3 { 'r' }
    else if i == 4 { 'e' } else if i == 5 { 'r' } else { ' ' }
}

/// Whether the header value uses the Bearer scheme.
pub fn is_bearer_header(h: &str) -> (r: bool)
    ensures
        r == is_bearer(h@),
{
    let n = h.unicode_len();
    if n < 7 {
        return false;
    }
    let mut i: usize = 0;
    while i < 7
        invariant
            i <= 7,
            n == h@.len(),
            n >= 7,
            forall|j: int| 0 <= j < i ==> folds_to(#[trigger] h@[j], bearer_word()[j]),
        decreases 7 - i,
    {
        let c = h.get_char(i);
        let l = bearer_char(i);
        let ok = c == l || ('a' <= l && l <= 'z' && c as u32 == (l as u32) - 32);
        if !ok {
            return false;
        }
        i += 1;
    }
    true
}

/// The token status of a request with the given `Authorization` header, at time `now`.
pub fn status_for_header_at(header: Option<&str>, secret: &str, now: i64) -> (r: TokenStatus)
    ensures
        r@ == header_outcome(opt_str_view(header), secret.spec_bytes(), now as int),
{
    match header {
        None => TokenStatus::Missing,
        Some(h) => {
            if is_bearer_header(h) {
                let rest = h.substring_char(7, h.unicode_len());
                let token = trim_white_space(rest);
                validate_token_at(token, secret, now)
            } else {
                TokenStatus::Invalid(Rejection::NotBearer)
            }
        },
    }
}

/// The body of an echo reply.
pub struct EchoReply {
    pub message: String,
    pub token_status: TokenStatus,
    pub note: &'static str,
}

/// The message to echo: the request's, or `ping`.
pub open spec fn echoed_message(m: Option<String>) -> Seq<char> {
    match m {
        Some(s) => s@,
        None => DEFAULT_MESSAGE@,
    }
}

/// The reply to an echo request at time `now`.
pub fn echo_reply_at(header: Option<&str>, message: Option<String>, secret: &str, now: i64) -> (r: EchoReply)
    ensures
        r.message@ == echoed_message(message),
        r.token_status@ == header_outcome(opt_str_view(header), secret.spec_bytes(), now as int),
        r.note@ == NOTE@,
{
    let token_status = status_for_header_at(header, secret, now);
    let message = match message {
        Some(m) => m,
        None => String::from_str(DEFAULT_MESSAGE),
    };
    EchoReply { message, token_status, note: NOTE }
}

/// The reply to an echo request, checked against the current clock.
pub fn echo_reply(header: Option<&str>, message: Option<String>, secret: &str) -> (r: EchoReply)
    ensures
        r.message@ == echoed_message(message),
        exists|now: i64|
            r.token_status@ == header_outcome(opt_str_view(header), secret.spec_bytes(), now as int),
        r.note@ == NOTE@,
{
    let now = unix_now();
    echo_reply_at(header, message, secret, now)
}

} // verus!
