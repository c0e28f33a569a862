use xbuilder::XError;

#[test]
fn error_only_a_failed_connection_is_fatal() {
    assert!(XError::ConnectionFailed.is_fatal());
    assert!(!XError::NoMatchingVisual.is_fatal());
    assert!(!XError::ColorNotFound.is_fatal());
    assert!(!XError::NoWindow.is_fatal());
}

#[test]
fn error_messages_name_the_error() {
    assert_eq!(XError::ConnectionFailed.message(), "Could not open the display.");
    assert_eq!(XError::NoMatchingVisual.message(), "Could not find a matching visual.");
    assert_eq!(XError::ColorNotFound.message(), "Could not find named color.");
    assert_eq!(XError::NoWindow.message(), "Could not find a window to draw on.");
}
