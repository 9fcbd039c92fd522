use api::errors::{failure, into_failure, no_list, query_error, ChatError, ErrorKind};

#[test]
fn new_builds_a_storage_error() {
    let e = ChatError::new(Some("why".to_string()), "what".to_string());
    assert_eq!(e.kind, ErrorKind::StorageError);
    assert_eq!(e.debug.as_deref(), Some("why"));
    assert_eq!(e.display, "what");
    let e = ChatError::new(None, "Name is empty".to_string());
    assert_eq!(e.debug, None);
    assert_eq!(e.display, "Name is empty");
}

#[test]
fn of_kind_keeps_the_kind() {
    let e = ChatError::of_kind(ErrorKind::NotFound, None, "gone".to_string());
    assert_eq!(e.kind, ErrorKind::NotFound);
    assert_eq!(e.debug, None);
    assert_eq!(e.display, "gone");
}

#[test]
fn query_error_is_not_found() {
    let e = query_error();
    assert_eq!(e.kind, ErrorKind::NotFound);
    assert_eq!(e.debug, None);
    assert_eq!(e.display, "Query error");
}

#[test]
fn no_list_is_a_storage_error() {
    let e = no_list();
    assert_eq!(e.kind, ErrorKind::StorageError);
    assert_eq!(e.debug, None);
    assert_eq!(e.display, "Query error");
}

#[test]
fn storage_error_hides_the_diagnostic_from_the_user() {
    let e = ChatError::storage("timeout talking to the store".to_string());
    assert_eq!(e.kind, ErrorKind::StorageError);
    assert_eq!(e.debug.as_deref(), Some("timeout talking to the store"));
    assert_eq!(e.display, "Internal server error");
}

#[test]
fn invalid_is_a_validation_error() {
    let e = ChatError::invalid("Name is empty");
    assert_eq!(e.kind, ErrorKind::ValidationError);
    assert_eq!(e.debug, None);
    assert_eq!(e.display, "Name is empty");
}

#[test]
fn missing_names_the_item_and_the_attribute() {
    let e = ChatError::missing("message", "sort");
    assert_eq!(e.kind, ErrorKind::FieldMissing);
    assert_eq!(e.debug.as_deref(), Some("Could not index message by sort"));
    assert_eq!(e.display, "Internal server error");
}

#[test]
fn failure_without_diagnostic_shows_the_message_alone() {
    let f = failure(ChatError::invalid("Name is empty"), 7);
    assert_eq!(f.status, 500);
    assert_eq!(f.body, "Name is empty");
    assert_eq!(f.log, None);
}

#[test]
fn failure_with_diagnostic_is_marked_and_logged() {
    let f = failure(ChatError::storage("boom".to_string()), 1234);
    assert_eq!(f.status, 500);
    assert_eq!(f.body, "Internal server error (1234)");
    assert_eq!(f.log.as_deref(), Some("FATAL (1234) boom"));
    let f = failure(ChatError::storage("x".to_string()), u64::MAX - 1);
    assert_eq!(f.body, format!("Internal server error ({})", u64::MAX - 1));
}

#[test]
fn into_failure_draws_a_number_in_range() {
    let mut seen_other_than_zero = false;
    for _ in 0..8 {
        let f = into_failure(ChatError::storage("boom".to_string()));
        assert_eq!(f.status, 500);
        let body = f.body;
        assert!(body.starts_with("Internal server error ("));
        assert!(body.ends_with(')'));
        let digits = &body["Internal server error (".len()..body.len() - 1];
        let id: u64 = digits.parse().unwrap();
        assert!(id < u64::MAX);
        assert_eq!(f.log, Some(format!("FATAL ({}) boom", id)));
        if id != 0 {
            seen_other_than_zero = true;
        }
    }
    assert!(seen_other_than_zero);
}

#[test]
fn into_failure_without_diagnostic_shows_no_number() {
    let f = into_failure(ChatError::invalid("Invalid user_id"));
    assert_eq!(f.body, "Invalid user_id");
    assert_eq!(f.log, None);
}
