use chat_core::chat::{ChatError, ChatState};
use chat_core::validate::ValidationError;

#[test]
fn first_connection_creates_one_online_user_without_name() {
    let mut s = ChatState::new();
    s.client_connected(1);
    assert_eq!(s.user_count(), 1);
    let u = s.find_user(1).unwrap();
    assert_eq!(u.identity, 1);
    assert_eq!(u.name, None);
    assert!(u.online);
}

#[test]
fn reconnection_preserves_name_and_sets_online() {
    let mut s = ChatState::new();
    s.client_connected(1);
    assert_eq!(s.set_name(1, "Bob".to_string()), Ok(()));
    s.identity_disconnected(1);
    assert!(!s.find_user(1).unwrap().online);

    s.client_connected(1);
    assert_eq!(s.user_count(), 1);
    let u = s.find_user(1).unwrap();
    assert_eq!(u.name, Some("Bob".to_string()));
    assert!(u.online);

    // Connecting while already online also keeps the name.
    s.client_connected(1);
    let u = s.find_user(1).unwrap();
    assert_eq!(u.name, Some("Bob".to_string()));
    assert!(u.online);
}

#[test]
fn disconnect_of_present_user_sets_offline_and_keeps_name() {
    let mut s = ChatState::new();
    s.client_connected(1);
    assert_eq!(s.set_name(1, "Bob".to_string()), Ok(()));
    s.identity_disconnected(1);
    let u = s.find_user(1).unwrap();
    assert_eq!(u.name, Some("Bob".to_string()));
    assert!(!u.online);
    assert_eq!(s.user_count(), 1);
}

#[test]
fn disconnect_of_absent_user_is_a_no_op() {
    let mut s = ChatState::new();
    s.identity_disconnected(5);
    assert_eq!(s.user_count(), 0);
    assert!(s.find_user(5).is_none());
}

#[test]
fn set_name_validation_failures_leave_user_unchanged() {
    let mut s = ChatState::new();
    s.client_connected(1);
    assert_eq!(s.set_name(1, "Bob".to_string()), Ok(()));

    assert_eq!(
        s.set_name(1, String::new()),
        Err(ChatError::Validation(ValidationError::Empty))
    );
    assert_eq!(
        s.set_name(1, "a".repeat(101)),
        Err(ChatError::Validation(ValidationError::TooLong))
    );
    assert_eq!(
        s.set_name(1, "line1\nline2".to_string()),
        Err(ChatError::Validation(ValidationError::ContainsNewline))
    );

    let u = s.find_user(1).unwrap();
    assert_eq!(u.name, Some("Bob".to_string()));
    assert!(u.online);
    assert_eq!(s.user_count(), 1);
}

#[test]
fn set_name_validation_failure_on_absent_user_creates_no_row() {
    let mut s = ChatState::new();
    assert_eq!(
        s.set_name(9, String::new()),
        Err(ChatError::Validation(ValidationError::Empty))
    );
    assert_eq!(s.user_count(), 0);
}

#[test]
fn set_name_updates_present_user() {
    let mut s = ChatState::new();
    s.client_connected(1);
    assert_eq!(s.set_name(1, "Alice".to_string()), Ok(()));
    let u = s.find_user(1).unwrap();
    assert_eq!(u.name, Some("Alice".to_string()));
    assert!(u.online);
    assert_eq!(u.identity, 1);
}

#[test]
fn set_name_on_absent_user_fails_and_creates_no_row() {
    let mut s = ChatState::new();
    assert_eq!(s.set_name(2, "Alice".to_string()), Err(ChatError::UnknownUser));
    assert_eq!(s.user_count(), 0);
    assert!(s.find_user(2).is_none());
}

#[test]
fn set_name_keeps_offline_user_offline() {
    let mut s = ChatState::new();
    s.client_connected(1);
    s.identity_disconnected(1);
    assert_eq!(s.set_name(1, "Carol".to_string()), Ok(()));
    let u = s.find_user(1).unwrap();
    assert_eq!(u.name, Some("Carol".to_string()));
    assert!(!u.online);
}

#[test]
fn chat_error_texts() {
    assert_eq!(
        ChatError::UnknownUser.set_name_text(),
        "Cannot set name for unknown user"
    );
    assert_eq!(
        ChatError::Validation(ValidationError::Empty).set_name_text(),
        "Name cannot be empty"
    );
    assert_eq!(
        ChatError::Validation(ValidationError::TooLong).send_message_text(),
        "Message is too long"
    );
}
