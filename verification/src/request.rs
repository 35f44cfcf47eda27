//! The authenticated request builder: the per-call nonce choice, the
//! signature over the canonical payload, and the assembled outbound request
//! (URL, headers and body) that the I/O layer executes.
use crate::config::{cfg_has, cfg_lookup, Config};
use crate::errors::KapiError;
use crate::nonce::gen_nonce;
use crate::signing::{
    b64_decode_of, b64_of, encode_payload, encode_signature, is_form_unreserved, payload_of, sign,
    signature_of,
};
use crate::strutil::{dec_str, is_dec_digit, lemma_dec_str_digits, u64_to_dec_string};
use vstd::prelude::*;

verus! {

/// The caller-supplied nonce override: the `nonce` configuration value when
/// it is present and non-empty.
pub open spec fn nonce_override(m: Seq<(Seq<char>, Seq<char>)>) -> Option<Seq<char>> {
    match cfg_lookup(m, "nonce"@) {
        Option::Some(v) => if v.len() > 0 {
            Option::Some(v)
        } else {
            Option::None
        },
        Option::None => Option::None,
    }
}

pub open spec fn all_dec_digits(s: Seq<char>) -> bool {
    forall|i: int| 0 <= i < s.len() ==> is_dec_digit(s[i])
}

/// All four signing inputs are configured.
pub open spec fn cfg_complete(m: Seq<(Seq<char>, Seq<char>)>) -> bool {
    cfg_has(m, "base-api-url"@) && cfg_has(m, "api-key"@) && cfg_has(m, "api-sec"@) && cfg_has(
        m,
        "open-orders-uri-path"@,
    )
}

/// What a produced `(nonce, signature)` pair is: the nonce is the override
/// verbatim when one is configured, else a generated decimal value; the
/// signature is the Base64 of the digest pipeline over the configured URI
/// path, that nonce and its canonical payload, keyed by the decoded secret.
pub open spec fn signed_pair_ok(
    m: Seq<(Seq<char>, Seq<char>)>,
    nonce: Seq<char>,
    sig: Seq<char>,
) -> bool {
    &&& cfg_complete(m)
    &&& match nonce_override(m) {
        Option::Some(v) => nonce == v,
        Option::None => exists|t: u64| nonce == dec_str(t as nat),
    }
    &&& all_dec_digits(nonce)
    &&& nonce.len() > 0
    &&& (b64_decode_of(cfg_lookup(m, "api-sec"@)->Some_0) matches Some(key) && sig == b64_of(
        signature_of(
            vstd::utf8::encode_utf8(cfg_lookup(m, "open-orders-uri-path"@)->Some_0),
            nonce,
            payload_of(nonce),
            key,
        ),
    ))
}

/// The failures signing can report: the first missing configuration key, in
/// the order they are read, or a secret that is not valid Base64.
pub open spec fn signing_failure_ok(m: Seq<(Seq<char>, Seq<char>)>, e: KapiError) -> bool {
    match e {
        KapiError::ConfigError(k) => {
            ||| (k@ == "base-api-url"@ && !cfg_has(m, "base-api-url"@))
            ||| (k@ == "api-key"@ && cfg_has(m, "base-api-url"@) && !cfg_has(m, "api-key"@))
            ||| (k@ == "api-sec"@ && cfg_has(m, "base-api-url"@) && cfg_has(m, "api-key"@)
                && !cfg_has(m, "api-sec"@))
            ||| (k@ == "open-orders-uri-path"@ && cfg_has(m, "base-api-url"@) && cfg_has(
                m,
                "api-key"@,
            ) && cfg_has(m, "api-sec"@) && !cfg_has(m, "open-orders-uri-path"@))
        },
        KapiError::InvalidSecretEncoding => cfg_complete(m) && b64_decode_of(
            cfg_lookup(m, "api-sec"@)->Some_0,
        ) is None,
        _ => false,
    }
}

/// Generate the nonce and Base64 signature for one open-orders call. A
/// caller-supplied non-empty `nonce` value is used verbatim and never
/// altered; otherwise a fresh time-derived nonce is generated. Fails exactly
/// when a required key is missing (`ConfigError`) or the secret is not valid
/// Base64 (`InvalidSecretEncoding`); no network is touched.
pub fn gen_signature(config: &Config) -> (r: Result<(String, String), KapiError>)
    requires
        match nonce_override(config@) {
            Option::Some(v) => all_dec_digits(v),
            Option::None => true,
        },
    ensures
        r is Ok <==> (cfg_complete(config@) && b64_decode_of(
            cfg_lookup(config@, "api-sec"@)->Some_0,
        ) is Some),
        r matches Ok(p) ==> signed_pair_ok(config@, p.0@, p.1@),
        r matches Err(e) ==> signing_failure_ok(config@, e),
{
    let _base_api_url = match config.get("base-api-url") {
        Option::Some(v) => v,
        Option::None => {
            return Err(KapiError::ConfigError("base-api-url".to_owned()));
        },
    };
    let _api_key = match config.get("api-key") {
        Option::Some(v) => v,
        Option::None => {
            return Err(KapiError::ConfigError("api-key".to_owned()));
        },
    };
    let api_sec = match config.get("api-sec") {
        Option::Some(v) => v,
        Option::None => {
            return Err(KapiError::ConfigError("api-sec".to_owned()));
        },
    };
    let uri_path = match config.get("open-orders-uri-path") {
        Option::Some(v) => v,
        Option::None => {
            return Err(KapiError::ConfigError("open-orders-uri-path".to_owned()));
        },
    };
    let nonce: String = {
        let over = config.get("nonce");
        match over {
            Option::Some(v) => {
                if v.as_str().unicode_len() > 0 {
                    v
                } else {
                    fresh_nonce_string()
                }
            },
            Option::None => fresh_nonce_string(),
        }
    };
    proof {
        assert forall|i: int| 0 <= i < nonce@.len() implies is_form_unreserved(nonce@[i]) by {
            assert(is_dec_digit(nonce@[i]));
        }
    }
    let payload = encode_payload(nonce.as_str());
    let mac = match sign(
        uri_path.as_str().as_bytes(),
        nonce.as_str(),
        payload.as_str(),
        api_sec.as_str(),
    ) {
        Ok(m) => m,
        Err(_) => {
            return Err(KapiError::InvalidSecretEncoding);
        },
    };
    let sig = encode_signature(&mac);
    Ok((nonce, sig))
}

/// A freshly generated nonce as its decimal string.
fn fresh_nonce_string() -> (s: String)
    ensures
        exists|t: u64| s@ == dec_str(t as nat),
        all_dec_digits(s@),
        s@.len() > 0,
{
    let t = gen_nonce();
    let s = u64_to_dec_string(t);
    proof {
        lemma_dec_str_digits(t as nat);
        assert(s@ == dec_str(t as nat));
    }
    s
}

/// One assembled authenticated call, ready for the I/O layer: the URL, the
/// two header values, and the body — byte-for-byte the canonical payload
/// that was hashed.
pub struct SignedRequest {
    pub url: String,
    pub api_key: String,
    pub signature: String,
    pub nonce: String,
    pub body: String,
}

/// Assemble the open-orders call: URL is the configured base followed by the
/// URI path; `api_key` the configured key; `nonce` and `signature` as
/// `gen_signature` produces them; `body` the canonical payload of that
/// nonce. Fails exactly as `gen_signature` does.
pub fn build_open_orders_request(config: &Config) -> (r: Result<SignedRequest, KapiError>)
    requires
        match nonce_override(config@) {
            Option::Some(v) => all_dec_digits(v),
            Option::None => true,
        },
    ensures
        r is Ok <==> (cfg_complete(config@) && b64_decode_of(
            cfg_lookup(config@, "api-sec"@)->Some_0,
        ) is Some),
        r matches Ok(req) ==> {
            &&& signed_pair_ok(config@, req.nonce@, req.signature@)
            &&& req.url@ == cfg_lookup(config@, "base-api-url"@)->Some_0 + cfg_lookup(
                config@,
                "open-orders-uri-path"@,
            )->Some_0
            &&& req.api_key@ == cfg_lookup(config@, "api-key"@)->Some_0
            &&& req.body@ == payload_of(req.nonce@)
        },
        r matches Err(e) ==> signing_failure_ok(config@, e),
{
    let pair = match gen_signature(config) {
        Ok(p) => p,
        Err(e) => {
            return Err(e);
        },
    };
    let (nonce, signature) = pair;
    let base = match config.get("base-api-url") {
        Option::Some(v) => v,
        Option::None => {
            return vstd::pervasive::unreached();
        },
    };
    let api_key = match config.get("api-key") {
        Option::Some(v) => v,
        Option::None => {
            return vstd::pervasive::unreached();
        },
    };
    let uri_path = match config.get("open-orders-uri-path") {
        Option::Some(v) => v,
        Option::None => {
            return vstd::pervasive::unreached();
        },
    };
    let mut url = base;
    url.append(uri_path.as_str());
    proof {
        assert forall|i: int| 0 <= i < nonce@.len() implies is_form_unreserved(nonce@[i]) by {
            assert(is_dec_digit(nonce@[i]));
        }
    }
    let body = encode_payload(nonce.as_str());
    Ok(SignedRequest { url, api_key, signature, nonce, body })
}

/// The ticker query URL: the endpoint with the pair appended as its query
/// parameter.
pub fn build_ticker_query(endpoint: &str, pair: &str) -> (q: String)
    ensures
        q@ == endpoint@ + "?pair="@ + pair@,
{
    let mut q = endpoint.to_owned();
    q.append("?pair=");
    q.append(pair);
    q
}

} // verus!
