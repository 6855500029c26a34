use user_service::ident::{UserId, ValidationError, KIND_MASK, RANDOM_KIND};

#[test]
fn hyphenated_text_is_read() {
    let id = UserId::parse("a1a2a3a4-b1b2-c1c2-d1d2-d3d4d5d6d7d8");
    assert_eq!(id, Ok(UserId { value: 0xa1a2a3a4b1b2c1c2d1d2d3d4d5d6d7d8 }));
}

#[test]
fn simple_text_is_read() {
    let id = UserId::parse("550e8400e29b41d4a716446655440000");
    assert_eq!(id, Ok(UserId { value: 0x550e8400e29b41d4a716446655440000 }));
}

#[test]
fn upper_case_is_read_as_lower_case() {
    let lower = UserId::parse("550e8400-e29b-41d4-a716-446655440000");
    let upper = UserId::parse("550E8400-E29B-41D4-A716-446655440000");
    assert_eq!(lower, upper);
    assert_eq!(lower, Ok(UserId { value: 0x550e8400e29b41d4a716446655440000 }));
}

#[test]
fn malformed_text_is_a_validation_failure() {
    assert_eq!(UserId::parse("not-an-id"), Err(ValidationError::MalformedId));
    assert_eq!(UserId::parse(""), Err(ValidationError::MalformedId));
    assert_eq!(UserId::parse("42"), Err(ValidationError::MalformedId));
    assert_eq!(
        UserId::parse("550e8400-e29b-41d4-a716-44665544000"),
        Err(ValidationError::MalformedId)
    );
    assert_eq!(
        UserId::parse("550e8400-e29b-41d4-a716-44665544000g"),
        Err(ValidationError::MalformedId)
    );
}

#[test]
fn parsed_value_becomes_an_identifier() {
    assert_eq!(UserId::from_parsed(Some(7)), Ok(UserId { value: 7 }));
    assert_eq!(UserId::from_parsed(Some(u128::MAX)), Ok(UserId { value: u128::MAX }));
    assert_eq!(UserId::from_parsed(None), Err(ValidationError::MalformedId));
}

#[test]
fn generated_identifier_is_of_the_random_kind() {
    for _ in 0..64 {
        let id = UserId::generate();
        assert_eq!(id.value & KIND_MASK, RANDOM_KIND);
    }
}

#[test]
fn generated_identifiers_differ() {
    let first = UserId::generate();
    let second = UserId::generate();
    assert_ne!(first, second);
}

#[test]
fn text_of_another_length_is_malformed() {
    assert_eq!(UserId::parse("550e8400e29b41d4a71644665544000"), Err(ValidationError::MalformedId));
    assert_eq!(
        UserId::parse("550e8400-e29b-41d4-a716-4466554400000"),
        Err(ValidationError::MalformedId)
    );
    assert_eq!(
        UserId::parse("\u{e9}50e8400e29b41d4a71644665544000"),
        Err(ValidationError::MalformedId)
    );
}

#[test]
fn braced_and_urn_texts_are_read() {
    let value: u128 = 0x550e8400e29b41d4a716446655440000;
    assert_eq!(UserId::parse("{550e8400-e29b-41d4-a716-446655440000}"), Ok(UserId { value }));
    assert_eq!(
        UserId::parse("urn:uuid:550e8400-e29b-41d4-a716-446655440000"),
        Ok(UserId { value })
    );
}
