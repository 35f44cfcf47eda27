use kapi::config::{parse_props_from_string, Config};
use kapi::errors::KapiError;

#[test]
fn parse_simple_pairs() {
    let text = "api-key=ABC\napi-sec=QUJD\n".to_string();
    let cfg = parse_props_from_string(text).unwrap();
    assert_eq!(cfg.get("api-key"), Some("ABC".to_string()));
    assert_eq!(cfg.get("api-sec"), Some("QUJD".to_string()));
    assert_eq!(cfg.get("missing"), None);
}

#[test]
fn parse_skips_comments_and_blank_lines() {
    let text = "# a comment\n\n   \t\n- another comment\nkey=value\n".to_string();
    let cfg = parse_props_from_string(text).unwrap();
    assert_eq!(cfg.get("key"), Some("value".to_string()));
    assert_eq!(cfg.get("# a comment"), None);
}

#[test]
fn parse_splits_at_first_equals() {
    let text = "url=https://example.test/api?x=1".to_string();
    let cfg = parse_props_from_string(text).unwrap();
    assert_eq!(cfg.get("url"), Some("https://example.test/api?x=1".to_string()));
}

#[test]
fn parse_handles_crlf_line_endings() {
    let text = "a=1\r\nb=2\r\n".to_string();
    let cfg = parse_props_from_string(text).unwrap();
    assert_eq!(cfg.get("a"), Some("1".to_string()));
    assert_eq!(cfg.get("b"), Some("2".to_string()));
}

#[test]
fn parse_without_trailing_newline() {
    let text = "a=1\nb=2".to_string();
    let cfg = parse_props_from_string(text).unwrap();
    assert_eq!(cfg.get("b"), Some("2".to_string()));
}

#[test]
fn parse_later_pair_shadows_earlier() {
    let text = "k=old\nk=new\n".to_string();
    let cfg = parse_props_from_string(text).unwrap();
    assert_eq!(cfg.get("k"), Some("new".to_string()));
}

#[test]
fn parse_rejects_line_without_equals() {
    let text = "good=1\nnot a pair\n".to_string();
    match parse_props_from_string(text) {
        Err(KapiError::ConfigError(line)) => assert_eq!(line, "not a pair"),
        other => panic!("expected ConfigError, got {:?}", other),
    }
}

#[test]
fn parse_empty_value_and_empty_key() {
    let text = "empty=\n=value\n".to_string();
    let cfg = parse_props_from_string(text).unwrap();
    assert_eq!(cfg.get("empty"), Some("".to_string()));
    assert_eq!(cfg.get(""), Some("value".to_string()));
}

#[test]
fn config_insert_and_get() {
    let mut cfg = Config::new();
    assert_eq!(cfg.get("k"), None);
    cfg.insert("k".to_string(), "1".to_string());
    cfg.insert("other".to_string(), "2".to_string());
    assert_eq!(cfg.get("k"), Some("1".to_string()));
    cfg.insert("k".to_string(), "3".to_string());
    assert_eq!(cfg.get("k"), Some("3".to_string()));
    assert_eq!(cfg.get("other"), Some("2".to_string()));
}
