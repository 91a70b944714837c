//! Properties that hold of every token, secret and clock reading.

use vstd::prelude::*;
use crate::primitives::{base64_decoded, hmac_sha256, json_document};
use crate::token::{
    body_segment, claim_email, claim_exp, claim_sub, claims_outcome, dot_index, has_two_segments,
    issued_for, signature_segment, sole_dot_at, token_outcome, Rejection, StatusView,
};

verus! {

/// Only one position of a token can hold its sole dot.
proof fn sole_dot_unique(t: Seq<u8>, i: int)
    requires
        sole_dot_at(t, i),
    ensures
        has_two_segments(t),
        dot_index(t) == i,
{
    let k = dot_index(t);
    if k != i {
        assert(t[i] == crate::token::DOT);
    }
}

/// A token issued for a payload under a secret verifies with that secret, for every
/// clock reading, as long as the payload is JSON whose expiry is unset or zero: the
/// outcome is `Valid` with the payload's subject and email.
pub proof fn issued_token_verifies(payload: Seq<u8>, secret: Seq<u8>, token: Seq<u8>, now: int)
    requires
        issued_for(token, payload, secret),
        json_document(payload) is Some,
        claim_exp(json_document(payload).unwrap()) == 0,
    ensures
        token_outcome(token, secret, now) == (StatusView::Valid {
            sub: claim_sub(json_document(payload).unwrap()),
            email: claim_email(json_document(payload).unwrap()),
        }),
{
    let i = choose|i: int|
        {
            &&& #[trigger] sole_dot_at(token, i)
            &&& base64_decoded(token.subrange(0, i)) == Some(payload)
            &&& hmac_sha256(secret, token.subrange(0, i)) is Some
            &&& base64_decoded(token.subrange(i + 1, token.len() as int)) == hmac_sha256(
                secret,
                token.subrange(0, i),
            )
        };
    sole_dot_unique(token, i);
    assert(body_segment(token) == token.subrange(0, i));
    assert(signature_segment(token) == token.subrange(i + 1, token.len() as int));
}

/// A token issued under one secret is rejected for its signature when verified with
/// another secret whose tag for the token's body differs.
pub proof fn other_secret_rejected(
    payload: Seq<u8>,
    secret: Seq<u8>,
    other: Seq<u8>,
    token: Seq<u8>,
    now: int,
)
    requires
        issued_for(token, payload, secret),
        hmac_sha256(other, body_segment(token)) is Some,
        hmac_sha256(other, body_segment(token)) != hmac_sha256(secret, body_segment(token)),
    ensures
        token_outcome(token, other, now) == StatusView::Invalid(Rejection::SignatureMismatch),
{
    let i = choose|i: int|
        {
            &&& #[trigger] sole_dot_at(token, i)
            &&& base64_decoded(token.subrange(0, i)) == Some(payload)
            &&& hmac_sha256(secret, token.subrange(0, i)) is Some
            &&& base64_decoded(token.subrange(i + 1, token.len() as int)) == hmac_sha256(
                secret,
                token.subrange(0, i),
            )
        };
    sole_dot_unique(token, i);
    assert(body_segment(token) == token.subrange(0, i));
    assert(signature_segment(token) == token.subrange(i + 1, token.len() as int));
}

/// A token that does not split into exactly two segments on `.` is rejected as
/// malformed, whatever the secret and the clock.
pub proof fn wrong_segment_count_rejected(token: Seq<u8>, secret: Seq<u8>, now: int)
    requires
        !has_two_segments(token),
    ensures
        token_outcome(token, secret, now) == StatusView::Invalid(Rejection::MalformedToken),
{
}

/// A two-segment token whose first segment is not valid base64 is rejected for its
/// body, whatever the signature, the secret and the clock.
pub proof fn bad_body_rejected(token: Seq<u8>, secret: Seq<u8>, now: int)
    requires
        has_two_segments(token),
        base64_decoded(body_segment(token)) is None,
    ensures
        token_outcome(token, secret, now) == StatusView::Invalid(Rejection::BodyNotBase64),
{
}

/// Claims that expired one second ago are rejected as expired (an expiry must be
/// positive to count); claims that expire in an hour are accepted.
pub proof fn expiry_edges(doc: serde_json::Value, now: int)
    ensures
        claim_exp(doc) == now - 1 && now - 1 > 0 ==> claims_outcome(doc, now)
            == StatusView::Invalid(Rejection::Expired),
        claim_exp(doc) == now + 3600 ==> claims_outcome(doc, now) == (StatusView::Valid {
            sub: claim_sub(doc),
            email: claim_email(doc),
        }),
{
}

/// Verification keeps no state: verifying the same token with the same secret at the
/// same time twice gives the same outcome.
pub proof fn verification_is_repeatable(
    token: Seq<u8>,
    secret: Seq<u8>,
    now: int,
    first: StatusView,
    second: StatusView,
)
    requires
        first == token_outcome(token, secret, now),
        second == token_outcome(token, secret, now),
    ensures
        first == second,
{
}

} // verus!
