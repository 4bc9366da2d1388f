use session_auth::carrier::{
    carry, clear, decode, encode, CookieAttributes, IncomingCookie, SameSite, COOKIE_NAME,
};
use session_auth::session_id::SessionId;

fn cookie(name: &str, value: &str) -> IncomingCookie {
    IncomingCookie { name: name.to_string(), value: value.to_string() }
}

#[test]
fn the_cookie_is_named_session() {
    assert_eq!(COOKIE_NAME, "session");
}

#[test]
fn encode_sets_an_http_only_cross_site_cookie() {
    let id = SessionId { value: 0x550e8400e29b41d4a716446655440000 };
    let expected = CookieAttributes {
        name: "session".to_string(),
        value: "550e8400-e29b-41d4-a716-446655440000".to_string(),
        http_only: true,
        same_site: Some(SameSite::Unrestricted),
        removal: false,
    };
    assert_eq!(encode(id), expected);
}

#[test]
fn encode_gives_a_value_that_parses_back() {
    let id = SessionId::mint();
    let cookie = encode(id);
    assert_eq!(SessionId::parse(&cookie.value), Some(id));
}

#[test]
fn carry_keeps_the_value_as_it_is() {
    let cookie = carry("{550E8400-E29B-41D4-A716-446655440000}".to_string());
    assert_eq!(cookie.name, "session");
    assert_eq!(cookie.value, "{550E8400-E29B-41D4-A716-446655440000}");
    assert!(cookie.http_only);
    assert_eq!(cookie.same_site, Some(SameSite::Unrestricted));
    assert!(!cookie.removal);
}

#[test]
fn decode_finds_the_session_cookie() {
    let cookies = vec![cookie("theme", "dark"), cookie("session", "abc"), cookie("lang", "en")];
    assert_eq!(decode(&cookies), Some("abc".to_string()));
}

#[test]
fn decode_does_not_examine_the_value() {
    let cookies = vec![cookie("session", "not an identifier")];
    assert_eq!(decode(&cookies), Some("not an identifier".to_string()));
    let empty = vec![cookie("session", "")];
    assert_eq!(decode(&empty), Some(String::new()));
}

#[test]
fn decode_takes_the_first_of_several() {
    let cookies = vec![cookie("session", "first"), cookie("session", "second")];
    assert_eq!(decode(&cookies), Some("first".to_string()));
}

#[test]
fn decode_without_a_session_cookie_gives_none() {
    assert_eq!(decode(&Vec::new()), None);
    let cookies = vec![cookie("Session", "abc"), cookie("sessions", "abc"), cookie("", "abc")];
    assert_eq!(decode(&cookies), None);
}

#[test]
fn clear_removes_the_session_cookie() {
    let expected = CookieAttributes {
        name: "session".to_string(),
        value: String::new(),
        http_only: false,
        same_site: None,
        removal: true,
    };
    assert_eq!(clear(), expected);
}
