use base64::Engine;
use bearer_echo::handler::{echo_reply, echo_reply_at, is_bearer_header, status_for_header_at, NOTE};
use bearer_echo::token::{issue_token, validate_token, validate_token_at, Rejection, TokenStatus};
use hmac::Mac;

const NOW: i64 = 1_700_000_000;

fn b64(data: &[u8]) -> String {
    base64::engine::general_purpose::STANDARD.encode(data)
}

fn signed(payload: &str, secret: &str) -> String {
    issue_token(payload.as_bytes(), secret).expect("an HMAC key of any length is accepted")
}

fn valid(sub: &str, email: Option<&str>) -> TokenStatus {
    TokenStatus::Valid { sub: sub.to_string(), email: email.map(|e| e.to_string()) }
}

#[test]
fn issued_token_matches_wire_format() {
    let payload = r#"{"sub":"alice"}"#;
    let body = b64(payload.as_bytes());
    let mut mac = <hmac::Hmac<sha2::Sha256> as Mac>::new_from_slice(b"k1").unwrap();
    mac.update(body.as_bytes());
    let sig = b64(&mac.finalize().into_bytes());
    assert_eq!(signed(payload, "k1"), format!("{body}.{sig}"));
}

#[test]
fn issued_token_verifies_with_its_secret() {
    let token = signed(r#"{"sub":"alice","email":"alice@example.com"}"#, "s3cret");
    assert_eq!(
        validate_token_at(&token, "s3cret", NOW),
        valid("alice", Some("alice@example.com"))
    );
}

#[test]
fn issued_token_verifies_against_the_clock() {
    let token = signed(r#"{"sub":"bob","exp":0}"#, "s3cret");
    assert_eq!(validate_token(&token, "s3cret"), valid("bob", None));
}

#[test]
fn other_secret_is_signature_mismatch() {
    let token = signed(r#"{"sub":"alice"}"#, "right");
    assert_eq!(
        validate_token_at(&token, "wrong", NOW),
        TokenStatus::Invalid(Rejection::SignatureMismatch)
    );
    assert_eq!(
        validate_token_at(&token, "", NOW),
        TokenStatus::Invalid(Rejection::SignatureMismatch)
    );
}

#[test]
fn wrong_segment_counts_are_malformed() {
    let token = signed(r#"{"sub":"alice"}"#, "k");
    for t in ["", "abc", "a.b.c", "..", &format!("{token}.x"), &token.replace('.', "")] {
        assert_eq!(
            validate_token_at(t, "k", NOW),
            TokenStatus::Invalid(Rejection::MalformedToken),
            "{t}"
        );
    }
}

#[test]
fn body_not_base64() {
    assert_eq!(
        validate_token_at("!!!!.AAAA", "k", NOW),
        TokenStatus::Invalid(Rejection::BodyNotBase64)
    );
    assert_eq!(
        validate_token_at("abc.", "k", NOW),
        TokenStatus::Invalid(Rejection::BodyNotBase64)
    );
}

#[test]
fn signature_not_base64_is_mismatch() {
    let token = signed(r#"{"sub":"alice"}"#, "k");
    let body = token.split('.').next().unwrap();
    assert_eq!(
        validate_token_at(&format!("{body}.***"), "k", NOW),
        TokenStatus::Invalid(Rejection::SignatureMismatch)
    );
    assert_eq!(
        validate_token_at(&format!("{body}."), "k", NOW),
        TokenStatus::Invalid(Rejection::SignatureMismatch)
    );
}

#[test]
fn tampered_body_is_mismatch() {
    let token = signed(r#"{"sub":"alice"}"#, "k");
    let sig = token.split('.').nth(1).unwrap();
    let forged = format!("{}.{sig}", b64(br#"{"sub":"admin"}"#));
    assert_eq!(
        validate_token_at(&forged, "k", NOW),
        TokenStatus::Invalid(Rejection::SignatureMismatch)
    );
}

#[test]
fn payload_not_json() {
    let token = signed("not json", "k");
    assert_eq!(
        validate_token_at(&token, "k", NOW),
        TokenStatus::Invalid(Rejection::PayloadNotJson)
    );
}

#[test]
fn expired_one_second_ago() {
    let token = signed(&format!(r#"{{"sub":"a","exp":{}}}"#, NOW - 1), "k");
    assert_eq!(validate_token_at(&token, "k", NOW), TokenStatus::Invalid(Rejection::Expired));
}

#[test]
fn expiring_in_an_hour_is_valid() {
    let token = signed(&format!(r#"{{"sub":"a","exp":{}}}"#, NOW + 3600), "k");
    assert_eq!(validate_token_at(&token, "k", NOW), valid("a", None));
}

#[test]
fn expiry_equal_to_now_is_valid() {
    let token = signed(&format!(r#"{{"sub":"a","exp":{NOW}}}"#), "k");
    assert_eq!(validate_token_at(&token, "k", NOW), valid("a", None));
}

#[test]
fn zero_negative_or_non_integer_expiry_never_expires() {
    for exp in ["0", "-5", "\"soon\"", "1.5"] {
        let token = signed(&format!(r#"{{"sub":"a","exp":{exp}}}"#), "k");
        assert_eq!(validate_token_at(&token, "k", NOW), valid("a", None), "{exp}");
    }
}

#[test]
fn integer_sub_becomes_decimal() {
    let token = signed(r#"{"sub":42}"#, "k");
    assert_eq!(validate_token_at(&token, "k", NOW), valid("42", None));
    let token = signed(r#"{"sub":-9223372036854775808}"#, "k");
    assert_eq!(validate_token_at(&token, "k", NOW), valid("-9223372036854775808", None));
}

#[test]
fn absent_or_unusable_sub_is_unknown() {
    for payload in [r#"{}"#, r#"{"sub":null}"#, r#"{"sub":1.5}"#, r#"{"sub":[1]}"#, "[1,2]", "7"] {
        let token = signed(payload, "k");
        assert_eq!(validate_token_at(&token, "k", NOW), valid("unknown", None), "{payload}");
    }
}

#[test]
fn email_only_when_a_string() {
    let token = signed(r#"{"sub":"a","email":"a@b.c"}"#, "k");
    assert_eq!(validate_token_at(&token, "k", NOW), valid("a", Some("a@b.c")));
    let token = signed(r#"{"sub":"a","email":5}"#, "k");
    assert_eq!(validate_token_at(&token, "k", NOW), valid("a", None));
}

#[test]
fn verifying_twice_gives_the_same_outcome() {
    let token = signed(r#"{"sub":"alice","email":"a@b.c"}"#, "k");
    assert_eq!(validate_token_at(&token, "k", NOW), validate_token_at(&token, "k", NOW));
    assert_eq!(validate_token_at("x.y", "k", NOW), validate_token_at("x.y", "k", NOW));
}

#[test]
fn reasons_are_the_fixed_strings() {
    assert_eq!(Rejection::MalformedToken.reason(), "token format must be body.signature");
    assert_eq!(Rejection::BodyNotBase64.reason(), "body is not valid base64");
    assert_eq!(Rejection::SigningKeyUnusable.reason(), "failed to load signing key");
    assert_eq!(Rejection::SignatureMismatch.reason(), "signature mismatch");
    assert_eq!(Rejection::PayloadNotJson.reason(), "payload is not valid JSON");
    assert_eq!(Rejection::Expired.reason(), "token expired");
    assert_eq!(Rejection::NotBearer.reason(), "authorization header must be Bearer");
}

#[test]
fn missing_header_is_missing() {
    assert_eq!(status_for_header_at(None, "k", NOW), TokenStatus::Missing);
}

#[test]
fn basic_scheme_is_not_bearer() {
    assert_eq!(
        status_for_header_at(Some("Basic abc"), "k", NOW),
        TokenStatus::Invalid(Rejection::NotBearer)
    );
    assert_eq!(
        status_for_header_at(Some("Bearer"), "k", NOW),
        TokenStatus::Invalid(Rejection::NotBearer)
    );
    assert_eq!(
        status_for_header_at(Some(""), "k", NOW),
        TokenStatus::Invalid(Rejection::NotBearer)
    );
}

#[test]
fn empty_bearer_token_is_malformed() {
    assert_eq!(
        status_for_header_at(Some("Bearer  "), "k", NOW),
        TokenStatus::Invalid(Rejection::MalformedToken)
    );
    assert_eq!(
        status_for_header_at(Some("Bearer "), "k", NOW),
        TokenStatus::Invalid(Rejection::MalformedToken)
    );
}

#[test]
fn bearer_scheme_ignores_case_and_token_is_trimmed() {
    let token = signed(r#"{"sub":"alice"}"#, "k");
    for header in [
        format!("Bearer {token}"),
        format!("bearer {token}"),
        format!("BEARER {token}"),
        format!("bEaReR \t {token} \n"),
    ] {
        assert_eq!(status_for_header_at(Some(&header), "k", NOW), valid("alice", None), "{header}");
    }
    assert!(is_bearer_header("BeArEr x"));
    assert!(!is_bearer_header("Bearerx"));
}

#[test]
fn echo_defaults_message_to_ping() {
    let reply = echo_reply_at(None, None, "k", NOW);
    assert_eq!(reply.message, "ping");
    assert_eq!(reply.token_status, TokenStatus::Missing);
    assert_eq!(reply.note, NOTE);
}

#[test]
fn echo_keeps_message_and_reports_status() {
    let token = signed(r#"{"sub":7,"email":"x@y.z"}"#, "k");
    let header = format!("Bearer {token}");
    let reply = echo_reply_at(Some(&header), Some("hello".to_string()), "k", NOW);
    assert_eq!(reply.message, "hello");
    assert_eq!(reply.token_status, valid("7", Some("x@y.z")));
    let reply = echo_reply(Some("Basic abc"), None, "k");
    assert_eq!(reply.message, "ping");
    assert_eq!(reply.token_status, TokenStatus::Invalid(Rejection::NotBearer));
}
