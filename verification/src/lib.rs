//! Client core for a cryptocurrency exchange's REST API: request signing
//! (nonce, canonical payload, SHA-256 / HMAC-SHA-512 digest pipeline,
//! Base64 signature), configuration parsing, and response shape validation.
use vstd::prelude::*;

pub mod config;
pub mod errors;
pub mod nonce;
pub mod request;
pub mod signing;
pub mod strutil;
pub mod validate;

verus! {

} // verus!
