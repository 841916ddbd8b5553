use pessoas::ident::PersonId;
use uuid::Uuid;

#[test]
fn canonical_text_is_hyphenated_lower_case() {
    let id = PersonId { value: 0xa1a2a3a4b1b2c1c2d1d2d3d4d5d6d7d8 };
    assert_eq!(id.to_text(), "a1a2a3a4-b1b2-c1c2-d1d2-d3d4d5d6d7d8");
}

#[test]
fn canonical_text_keeps_leading_zeros() {
    assert_eq!(PersonId { value: 0 }.to_text(), "00000000-0000-0000-0000-000000000000");
    assert_eq!(PersonId { value: 0xabc }.to_text(), "00000000-0000-0000-0000-000000000abc");
    assert_eq!(PersonId { value: u128::MAX }.to_text(), "ffffffff-ffff-ffff-ffff-ffffffffffff");
}

#[test]
fn canonical_text_reads_back() {
    for value in [0u128, 1, 0xdead_beef, 0x0123456789abcdef0123456789abcdef, u128::MAX] {
        let id = PersonId { value };
        assert_eq!(PersonId::parse(&id.to_text()), Some(id));
    }
}

#[test]
fn parse_reads_the_forms_of_an_identifier() {
    let id = PersonId { value: 0x550e8400e29b41d4a716446655440000 };
    assert_eq!(PersonId::parse("550e8400-e29b-41d4-a716-446655440000"), Some(id));
    assert_eq!(PersonId::parse("550E8400-E29B-41D4-A716-446655440000"), Some(id));
    assert_eq!(PersonId::parse("550e8400e29b41d4a716446655440000"), Some(id));
    assert_eq!(PersonId::parse("{550e8400-e29b-41d4-a716-446655440000}"), Some(id));
    assert_eq!(PersonId::parse("urn:uuid:550e8400-e29b-41d4-a716-446655440000"), Some(id));
}

#[test]
fn parse_refuses_what_is_no_identifier() {
    assert_eq!(PersonId::parse(""), None);
    assert_eq!(PersonId::parse("zeca"), None);
    assert_eq!(PersonId::parse("550e8400-e29b-41d4-a716-44665544000"), None);
    assert_eq!(PersonId::parse("550e8400-e29b-41d4-a716-44665544000g"), None);
    assert_eq!(PersonId::parse("550e8400e29b-41d4-a716-4466-55440000"), None);
}

#[test]
fn parse_agrees_with_the_identifier_crate() {
    let text = "936da01f-9abd-4d9d-80c7-02af85c822a8";
    let expected = Uuid::parse_str(text).unwrap().as_u128();
    assert_eq!(PersonId::parse(text), Some(PersonId { value: expected }));
}

#[test]
fn fresh_identifier_has_the_random_form() {
    for _ in 0..64 {
        let id = PersonId::fresh();
        assert_eq!((id.value >> 76) & 0xf, 4);
        assert_eq!((id.value >> 62) & 0x3, 2);
        let text = id.to_text();
        assert_eq!(text.len(), 36);
        assert_eq!(&text[14..15], "4");
        assert!(matches!(&text[19..20], "8" | "9" | "a" | "b"));
    }
}

#[test]
fn fresh_identifiers_differ() {
    let a = PersonId::fresh();
    let b = PersonId::fresh();
    assert_ne!(a, b);
}
