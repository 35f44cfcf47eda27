//! The digest pipeline and its encoders: the canonical payload string, the
//! SHA-256 / HMAC-SHA-512 chain, and the Base64 signature and secret codecs.
//!
//! The hash, MAC and Base64 computations are done by outside crates behind
//! trusted wrappers; their results are named by uninterpreted spec functions,
//! and everything around the calls is verified against those names.
use crate::errors::KapiError;
use sha2ni::Digest;
use vstd::prelude::*;

verus! {

/// The Base64 (standard alphabet, padded) encoding of `b`, as `base64::encode`
/// returns it.
pub uninterp spec fn b64_of(b: Seq<u8>) -> Seq<char>;

/// What `base64::decode` returns for `s`: the decoded bytes, or `None` when
/// `s` is not acceptable Base64.
pub uninterp spec fn b64_decode_of(s: Seq<char>) -> Option<Seq<u8>>;

/// The SHA-256 digest (32 bytes) of the UTF-8 bytes of `s`.
pub uninterp spec fn sha256_of(s: Seq<char>) -> Seq<u8>;

/// The HMAC-SHA-512 tag (64 bytes) of `msg` under `key`.
pub uninterp spec fn hmac_sha512_of(key: Seq<u8>, msg: Seq<u8>) -> Seq<u8>;

/// Relies on `base64::encode` (standard alphabet, with padding): the result is
/// a function of the input bytes alone, and `base64::decode` of it gives the
/// input back. The length bound keeps the crate's internal output-size
/// calculation from overflowing.
#[verifier::external_body]
fn b64_encode(b: &Vec<u8>) -> (r: String)
    requires
        b@.len() < 0x1000000000000000,
    ensures
        r@ == b64_of(b@),
        b64_decode_of(r@) == Some(b@),
{
    base64::encode(b)
}

#[verifier::external_type_specification]
#[verifier::external_body]
pub struct ExDecodeError(base64::DecodeError);

/// Relies on `base64::decode` (standard alphabet): the outcome is a function
/// of the input characters alone; an input it cannot decode is reported as an
/// error, never by panicking.
#[verifier::external_body]
fn b64_decode(s: &str) -> (r: Result<Vec<u8>, base64::DecodeError>)
    ensures
        r matches Ok(v) ==> b64_decode_of(s@) == Some(v@),
        r is Err ==> b64_decode_of(s@) is None,
{
    base64::decode(s)
}

/// Relies on sha2ni's `Sha256` (`Digest::input` / `Digest::result`): the
/// SHA-256 digest of the input's UTF-8 bytes, 32 bytes, a function of the
/// input alone.
#[verifier::external_body]
pub fn gen_sha_256(input: String) -> (r: Vec<u8>)
    ensures
        r@ == sha256_of(input@),
        r@.len() == 32,
{
    let mut hasher = sha2ni::Sha256::new();
    hasher.input(input.as_bytes());
    hasher.result().to_vec()
}

/// Relies on hmac-sha512's `HMAC::mac(input, key)`: the HMAC-SHA-512 tag of
/// `input` under key `secret`, 64 bytes, a function of the two arguments
/// alone.
#[verifier::external_body]
pub fn gen_sha_512(input: Vec<u8>, secret: Vec<u8>) -> (r: Vec<u8>)
    ensures
        r@ == hmac_sha512_of(secret@, input@),
        r@.len() == 64,
{
    hmac_sha512::HMAC::mac(&input, &secret).to_vec()
}

/// Characters that `application/x-www-form-urlencoded` serialization leaves
/// unchanged: ASCII alphanumerics and `*`, `-`, `.`, `_`.
pub open spec fn is_form_unreserved(c: char) -> bool {
    let u = c as u32;
    u == 42 || u == 45 || u == 46 || u == 95 || (48 <= u <= 57) || (65 <= u <= 90) || (97 <= u
        <= 122)
}

/// The canonical request body for the open-orders call: the nonce first, then
/// the fixed `trades=true` parameter.
pub open spec fn payload_of(nonce: Seq<char>) -> Seq<char> {
    "nonce="@ + nonce + "&trades=true"@
}

/// Relies on `url::form_urlencoded::Serializer` (`append_pair`, `finish`):
/// characters of the unreserved set are serialized unchanged, pairs are
/// joined as `name=value` with `&` between them.
#[verifier::external_body]
fn form_encode_nonce_trades(nonce: &str) -> (r: String)
    requires
        forall|i: int| 0 <= i < nonce@.len() ==> is_form_unreserved(nonce@[i]),
    ensures
        r@ == payload_of(nonce@),
{
    url::form_urlencoded::Serializer::new(String::new())
        .append_pair("nonce", nonce)
        .append_pair("trades", "true")
        .finish()
}

/// The canonical payload encoder: byte-for-byte the string that is both
/// hashed and sent as the request body.
pub fn encode_payload(nonce: &str) -> (r: String)
    requires
        forall|i: int| 0 <= i < nonce@.len() ==> is_form_unreserved(nonce@[i]),
    ensures
        r@ == payload_of(nonce@),
{
    form_encode_nonce_trades(nonce)
}

/// The signature bytes of one request: HMAC-SHA-512 under `key` of the URI
/// path bytes followed by the SHA-256 digest of `nonce ++ body`.
pub open spec fn signature_of(
    uri_path: Seq<u8>,
    nonce: Seq<char>,
    body: Seq<char>,
    key: Seq<u8>,
) -> Seq<u8> {
    hmac_sha512_of(key, uri_path + sha256_of(nonce + body))
}

/// Decode a standard Base64 string, reporting failure as
/// `InvalidSecretEncoding`.
pub fn decode_base64(s: &str) -> (r: Result<Vec<u8>, KapiError>)
    ensures
        r is Ok <==> b64_decode_of(s@) is Some,
        r matches Ok(v) ==> b64_decode_of(s@) == Some(v@),
        r matches Err(e) ==> e is InvalidSecretEncoding,
{
    match b64_decode(s) {
        Ok(v) => Ok(v),
        Err(_) => Err(KapiError::InvalidSecretEncoding),
    }
}

/// The digest pipeline: SHA-256 of `nonce ++ encoded_body`, appended to the
/// URI path bytes, MACed with HMAC-SHA-512 under the Base64-decoded secret.
/// Fails only, and exactly, when the secret is not valid Base64; no network
/// or other side effect is involved. The result is a function of the four
/// arguments alone.
pub fn sign(uri_path: &[u8], nonce: &str, encoded_body: &str, secret_b64: &str) -> (r: Result<
    Vec<u8>,
    KapiError,
>)
    ensures
        r is Ok <==> b64_decode_of(secret_b64@) is Some,
        r matches Ok(mac) ==> mac@ == signature_of(
            uri_path@,
            nonce@,
            encoded_body@,
            b64_decode_of(secret_b64@)->Some_0,
        ) && mac@.len() == 64,
        r matches Err(e) ==> e is InvalidSecretEncoding && b64_decode_of(secret_b64@) is None,
{
    let secret = match decode_base64(secret_b64) {
        Ok(v) => v,
        Err(_) => {
            return Err(KapiError::InvalidSecretEncoding);
        },
    };
    let mut message = nonce.to_owned();
    message.append(encoded_body);
    let digest = gen_sha_256(message);
    let mut mac_input = vstd::slice::slice_to_vec(uri_path);
    let mut tail = digest;
    mac_input.append(&mut tail);
    Ok(gen_sha_512(mac_input, secret))
}

/// Determinism of the digest pipeline: two signing runs over the same URI
/// path, nonce, body and key yield the same signature bytes — there is no
/// hidden randomness. `sign` ensures each `Ok` result equals
/// `signature_of(...)` of its inputs, so any two such results coincide.
pub proof fn lemma_sign_deterministic(
    uri_path: Seq<u8>,
    nonce: Seq<char>,
    body: Seq<char>,
    key: Seq<u8>,
    m1: Seq<u8>,
    m2: Seq<u8>,
)
    requires
        m1 == signature_of(uri_path, nonce, body, key),
        m2 == signature_of(uri_path, nonce, body, key),
    ensures
        m1 == m2,
{
}

/// Injectivity of the signature encoding: two byte strings with the same
/// Base64 encoding are equal, given that decoding inverts encoding on each —
/// which `encode_signature` ensures of every result it produces.
pub proof fn lemma_encoder_injective(a: Seq<u8>, b: Seq<u8>)
    requires
        b64_decode_of(b64_of(a)) == Some(a),
        b64_decode_of(b64_of(b)) == Some(b),
        b64_of(a) == b64_of(b),
    ensures
        a == b,
{
}

/// The signature encoder: the Base64 header value of a 64-byte MAC. Decoding
/// the result gives back exactly the MAC bytes, so the encoding loses
/// nothing.
pub fn encode_signature(mac: &Vec<u8>) -> (r: String)
    requires
        mac@.len() == 64,
    ensures
        r@ == b64_of(mac@),
        b64_decode_of(r@) == Some(mac@),
{
    b64_encode(mac)
}

} // verus!
