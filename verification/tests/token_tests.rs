use storm_grok::error::ErrorKind;
use storm_grok::token::{token_kid, token_text};

fn token_with_header(kid: Option<&str>) -> String {
    let mut header = jsonwebtoken::Header::new(jsonwebtoken::Algorithm::HS256);
    header.kid = kid.map(|k| k.to_string());
    let mut claims = serde_json::Map::new();
    claims.insert("sub".to_string(), serde_json::Value::String("someone".to_string()));
    let key = jsonwebtoken::EncodingKey::from_secret(b"secret");
    jsonwebtoken::encode(&header, &claims, &key).unwrap()
}

#[test]
fn token_text_keeps_valid_utf8() {
    assert_eq!(token_text(b"a.b.c"), "a.b.c");
    assert_eq!(token_text(b""), "");
    assert_eq!(token_text("h\u{e9}".as_bytes()), "h\u{e9}");
}

#[test]
fn token_text_replaces_invalid_bytes() {
    assert_eq!(token_text(&[b'a', 0xff, b'b']), "a\u{fffd}b");
    assert_eq!(token_text(&[0xc3]), "\u{fffd}");
}

#[test]
fn kid_is_read_from_the_header() {
    let token = token_with_header(Some("key-2024"));
    assert_eq!(token_kid(&token), Ok("key-2024".to_string()));
}

#[test]
fn header_without_kid_is_refused() {
    let token = token_with_header(None);
    assert_eq!(token_kid(&token), Err(ErrorKind::AuthMissingKid));
}

#[test]
fn what_is_no_token_is_malformed() {
    assert_eq!(token_kid(""), Err(ErrorKind::HandshakeMalformed));
    assert_eq!(token_kid("abc"), Err(ErrorKind::HandshakeMalformed));
    assert_eq!(token_kid("a.b"), Err(ErrorKind::HandshakeMalformed));
    assert_eq!(token_kid("a.b.c.d"), Err(ErrorKind::HandshakeMalformed));
    assert_eq!(token_kid("!!!.e30.sig"), Err(ErrorKind::HandshakeMalformed));
}
