use session_auth::session_id::SessionId;

#[test]
fn parse_reads_a_hyphenated_identifier() {
    let id = SessionId::parse("550e8400-e29b-41d4-a716-446655440000");
    assert_eq!(id, Some(SessionId { value: 0x550e8400e29b41d4a716446655440000 }));
}

#[test]
fn parse_reads_the_other_forms_of_the_same_identifier() {
    let expected = Some(SessionId { value: 0x67e5504410b1426f9247bb680e5fe0c8 });
    assert_eq!(SessionId::parse("67e5504410b1426f9247bb680e5fe0c8"), expected);
    assert_eq!(SessionId::parse("67E55044-10B1-426F-9247-BB680E5FE0C8"), expected);
    assert_eq!(SessionId::parse("{67e55044-10b1-426f-9247-bb680e5fe0c8}"), expected);
    assert_eq!(SessionId::parse("urn:uuid:67e55044-10b1-426f-9247-bb680e5fe0c8"), expected);
}

#[test]
fn parse_rejects_what_is_not_an_identifier() {
    assert_eq!(SessionId::parse(""), None);
    assert_eq!(SessionId::parse("session"), None);
    assert_eq!(SessionId::parse("550e8400-e29b-41d4-a716-44665544000"), None);
    assert_eq!(SessionId::parse("550e8400-e29b-41d4-a716-4466554400000"), None);
    assert_eq!(SessionId::parse("550e8400-e29b-41d4-a716-44665544000g"), None);
    assert_eq!(SessionId::parse("550e8400e29b-41d4-a716-4466-55440000"), None);
    assert_eq!(SessionId::parse(" 550e8400-e29b-41d4-a716-446655440000"), None);
}

#[test]
fn to_text_is_lower_case_and_hyphenated() {
    let id = SessionId { value: 0xa1a2a3a4b1b2c1c2d1d2d3d4d5d6d7d8 };
    assert_eq!(id.to_text(), "a1a2a3a4-b1b2-c1c2-d1d2-d3d4d5d6d7d8");
    let low = SessionId { value: 0x1 };
    assert_eq!(low.to_text(), "00000000-0000-0000-0000-000000000001");
    let zero = SessionId { value: 0 };
    assert_eq!(zero.to_text(), "00000000-0000-0000-0000-000000000000");
    let top = SessionId { value: u128::MAX };
    assert_eq!(top.to_text(), "ffffffff-ffff-ffff-ffff-ffffffffffff");
}

#[test]
fn text_reads_back_as_the_identifier() {
    let values: [u128; 4] = [0, 1, 0x0123456789abcdef0123456789abcdef, u128::MAX];
    for value in values {
        let id = SessionId { value };
        assert_eq!(SessionId::parse(&id.to_text()), Some(id));
    }
}

#[test]
fn mint_draws_a_random_form_identifier() {
    for _ in 0..32 {
        let id = SessionId::mint();
        assert_eq!((id.value >> 76) & 0xf, 4);
        assert_eq!((id.value >> 62) & 0x3, 2);
        let text = id.to_text();
        assert_eq!(text.len(), 36);
        assert_eq!(&text[14..15], "4");
        assert!(matches!(&text[19..20], "8" | "9" | "a" | "b"));
        assert_eq!(SessionId::parse(&text), Some(id));
    }
}

#[test]
fn mint_does_not_repeat_itself() {
    let first = SessionId::mint();
    let second = SessionId::mint();
    assert_ne!(first, second);
}
