use kapi::config::Config;
use kapi::errors::KapiError;
use kapi::request::{build_open_orders_request, build_ticker_query, gen_signature};
use kapi::signing::{decode_base64, encode_payload, encode_signature, gen_sha_256, gen_sha_512, sign};

fn hex_to_bytes(hex: &str) -> Vec<u8> {
    let chars: Vec<char> = hex.chars().collect();
    let mut out = Vec::new();
    let mut i = 0;
    while i + 1 < chars.len() {
        let hi = chars[i].to_digit(16).unwrap() as u8;
        let lo = chars[i + 1].to_digit(16).unwrap() as u8;
        out.push(hi * 16 + lo);
        i += 2;
    }
    out
}

#[test]
fn payload_is_nonce_then_trades() {
    let p = encode_payload("1616492376594");
    assert_eq!(p, "nonce=1616492376594&trades=true");
}

#[test]
fn sha256_matches_known_vector() {
    let digest = gen_sha_256("abc".to_string());
    assert_eq!(
        digest,
        hex_to_bytes("ba7816bf8f01cfea414140de5dae2223b00361a396177a9cb410ff61f20015ad")
    );
}

#[test]
fn hmac_sha512_matches_known_vector() {
    // RFC 4231 test case 1
    let key = vec![0x0bu8; 20];
    let msg = b"Hi There".to_vec();
    let mac = gen_sha_512(msg, key);
    assert_eq!(
        mac,
        hex_to_bytes(
            "87aa7cdea5ef619d4ff0b4241a1d6cb02379f4e2ce4ec2787ad0b30545e17cde\
             daa833b7d6b8a702038b274eaea3f4e4be9d914eeb61f1702e696c203a126854"
        )
    );
}

#[test]
fn signature_encoding_round_trips() {
    let mac: Vec<u8> = (0u8..64).collect();
    let encoded = encode_signature(&mac);
    let decoded = decode_base64(&encoded).unwrap();
    assert_eq!(decoded, mac);
}

#[test]
fn decode_rejects_invalid_base64() {
    match decode_base64("not valid base64!") {
        Err(KapiError::InvalidSecretEncoding) => {}
        other => panic!("expected InvalidSecretEncoding, got {:?}", other),
    }
}

#[test]
fn sign_fails_on_bad_secret_without_side_effects() {
    let r = sign(b"/0/private/OpenOrders", "1", "nonce=1&trades=true", "@@not-base64@@");
    match r {
        Err(KapiError::InvalidSecretEncoding) => {}
        other => panic!("expected InvalidSecretEncoding, got {:?}", other),
    }
}

#[test]
fn sign_is_deterministic() {
    let secret = "kQH5HW/8p1uGOVjbgWA7FunAmGO8lsSUXNsu3eow76sz84Q18fWxnyRzBHCd3pd5nE9qa99HAZtuZuj6F1huXg==";
    let a = sign(b"/0/private/OpenOrders", "7", "nonce=7&trades=true", secret).unwrap();
    let b = sign(b"/0/private/OpenOrders", "7", "nonce=7&trades=true", secret).unwrap();
    assert_eq!(a, b);
    assert_eq!(a.len(), 64);
}

#[test]
fn sign_matches_documented_example() {
    // The exchange's published signing example.
    let secret = "kQH5HW/8p1uGOVjbgWA7FunAmGO8lsSUXNsu3eow76sz84Q18fWxnyRzBHCd3pd5nE9qa99HAZtuZuj6F1huXg==";
    let body = "nonce=1616492376594&ordertype=limit&pair=XBTUSD&price=37500&type=buy&volume=1.25";
    let mac = sign(b"/0/private/AddOrder", "1616492376594", body, secret).unwrap();
    let sig = encode_signature(&mac);
    assert_eq!(
        sig,
        "4/dpxb3iT4tp/ZCVEwSnEsLxx0bqyhLpdfOpc6fn7OR8+UClSV5n9E6aSS8MPtnRfp32bAb0nmbRn6H8ndwLUQ=="
    );
}

fn test_config(nonce: Option<&str>) -> Config {
    let mut cfg = Config::new();
    cfg.insert("base-api-url".to_string(), "https://api.example.test".to_string());
    cfg.insert("api-key".to_string(), "THEKEY".to_string());
    cfg.insert(
        "api-sec".to_string(),
        "kQH5HW/8p1uGOVjbgWA7FunAmGO8lsSUXNsu3eow76sz84Q18fWxnyRzBHCd3pd5nE9qa99HAZtuZuj6F1huXg=="
            .to_string(),
    );
    cfg.insert("open-orders-uri-path".to_string(), "/0/private/OpenOrders".to_string());
    if let Some(n) = nonce {
        cfg.insert("nonce".to_string(), n.to_string());
    }
    cfg
}

#[test]
fn gen_signature_keeps_caller_nonce_verbatim() {
    let cfg = test_config(Some("1616492376594"));
    let (nonce, _sig) = gen_signature(&cfg).unwrap();
    assert_eq!(nonce, "1616492376594");
}

#[test]
fn gen_signature_same_overridden_nonce_gives_same_signature() {
    let cfg = test_config(Some("1616492376594"));
    let (n1, s1) = gen_signature(&cfg).unwrap();
    let (n2, s2) = gen_signature(&cfg).unwrap();
    assert_eq!(n1, n2);
    assert_eq!(s1, s2);
}

#[test]
fn gen_signature_empty_override_generates_fresh_nonce() {
    let cfg = test_config(Some(""));
    let (nonce, _sig) = gen_signature(&cfg).unwrap();
    assert!(!nonce.is_empty());
    assert!(nonce.chars().all(|c| c.is_ascii_digit()));
}

#[test]
fn gen_signature_reports_first_missing_key() {
    let mut cfg = Config::new();
    cfg.insert("api-key".to_string(), "THEKEY".to_string());
    match gen_signature(&cfg) {
        Err(KapiError::ConfigError(k)) => assert_eq!(k, "base-api-url"),
        other => panic!("expected ConfigError, got {:?}", other),
    }
}

#[test]
fn gen_signature_rejects_malformed_secret() {
    let mut cfg = test_config(Some("5"));
    cfg.insert("api-sec".to_string(), "***".to_string());
    match gen_signature(&cfg) {
        Err(KapiError::InvalidSecretEncoding) => {}
        other => panic!("expected InvalidSecretEncoding, got {:?}", other),
    }
}

#[test]
fn build_open_orders_request_assembles_all_parts() {
    let cfg = test_config(Some("1616492376594"));
    let req = build_open_orders_request(&cfg).unwrap();
    assert_eq!(req.url, "https://api.example.test/0/private/OpenOrders");
    assert_eq!(req.api_key, "THEKEY");
    assert_eq!(req.nonce, "1616492376594");
    assert_eq!(req.body, "nonce=1616492376594&trades=true");
    // the signature is the pipeline over exactly the body that is sent
    let mac = sign(
        b"/0/private/OpenOrders",
        "1616492376594",
        "nonce=1616492376594&trades=true",
        "kQH5HW/8p1uGOVjbgWA7FunAmGO8lsSUXNsu3eow76sz84Q18fWxnyRzBHCd3pd5nE9qa99HAZtuZuj6F1huXg==",
    )
    .unwrap();
    assert_eq!(req.signature, encode_signature(&mac));
}

#[test]
fn ticker_query_appends_pair() {
    let q = build_ticker_query("https://api.example.test/0/public/Ticker", "XBTUSD");
    assert_eq!(q, "https://api.example.test/0/public/Ticker?pair=XBTUSD");
}
