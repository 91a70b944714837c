//! Verification of compact HMAC-signed bearer tokens (`base64(payload).base64(mac)`)
//! and the decisions of a small echo endpoint built on it.

pub mod primitives;
pub mod token;
pub mod handler;
pub mod laws;
