use chat_core::validate::{validate_message, validate_name, ValidationError};

#[test]
fn empty_name_is_rejected() {
    assert_eq!(validate_name(String::new()), Err(ValidationError::Empty));
}

#[test]
fn name_at_limit_is_accepted() {
    let name = "a".repeat(100);
    assert_eq!(validate_name(name.clone()), Ok(name));
}

#[test]
fn name_over_limit_is_rejected() {
    let name = "a".repeat(101);
    assert_eq!(validate_name(name), Err(ValidationError::TooLong));
}

#[test]
fn name_with_newline_is_rejected() {
    let name = "line1\nline2".to_string();
    assert_eq!(validate_name(name), Err(ValidationError::ContainsNewline));
}

#[test]
fn too_long_takes_precedence_over_newline() {
    let mut name = "a".repeat(101);
    name.push('\n');
    assert_eq!(validate_name(name), Err(ValidationError::TooLong));
}

#[test]
fn ordinary_name_is_returned_unchanged() {
    assert_eq!(validate_name("Alice".to_string()), Ok("Alice".to_string()));
}

#[test]
fn multibyte_name_is_measured_in_characters() {
    // 101 two-byte characters: over the limit in characters, and the limit
    // is on characters, not bytes.
    let name = "é".repeat(101);
    assert_eq!(validate_name(name), Err(ValidationError::TooLong));
    let name = "é".repeat(100);
    assert_eq!(validate_name(name.clone()), Ok(name));
}

#[test]
fn empty_message_is_rejected() {
    assert_eq!(validate_message(String::new()), Err(ValidationError::Empty));
}

#[test]
fn message_at_limit_is_accepted() {
    let text = "x".repeat(1000);
    assert_eq!(validate_message(text.clone()), Ok(text));
}

#[test]
fn message_over_limit_is_rejected() {
    let text = "x".repeat(1001);
    assert_eq!(validate_message(text), Err(ValidationError::TooLong));
}

#[test]
fn message_may_contain_newlines() {
    let text = "line1\nline2".to_string();
    assert_eq!(validate_message(text.clone()), Ok(text));
}

#[test]
fn validation_error_texts() {
    assert_eq!(ValidationError::Empty.name_text(), "Name cannot be empty");
    assert_eq!(ValidationError::TooLong.name_text(), "Name is too long");
    assert_eq!(
        ValidationError::ContainsNewline.name_text(),
        "Name cannot contain newlines"
    );
    assert_eq!(
        ValidationError::Empty.message_text(),
        "Message cannot be empty"
    );
    assert_eq!(
        ValidationError::TooLong.message_text(),
        "Message is too long"
    );
}
