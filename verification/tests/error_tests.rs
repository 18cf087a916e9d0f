use shush::error::{Error, ErrorKind};

#[test]
fn new_error_has_no_situation() {
    let e = Error::new(ErrorKind::Unexpected, "boom");
    assert_eq!(e.kind, ErrorKind::Unexpected);
    assert!(e.situation.is_none());
    assert_eq!(e.details, "boom");
}

#[test]
fn situation_keeps_kind_and_details() {
    let e = Error::new(ErrorKind::InvalidData, "bad").situation("while reading");
    assert_eq!(e.kind, ErrorKind::InvalidData);
    assert_eq!(e.details, "bad");
    assert_eq!(e.situation.as_deref(), Some("while reading"));
}

#[test]
fn later_situation_replaces_earlier() {
    let e = Error::new(ErrorKind::IOError, "x").situation("first").situation("second");
    assert_eq!(e.situation.as_deref(), Some("second"));
}

#[test]
fn display_without_situation() {
    let e = Error::io_error("disk full");
    assert_eq!(e.to_string(), "I/O error: { disk full }");
}

#[test]
fn display_with_situation() {
    let e = Error::invalid_data("not toml").situation("while loading config");
    assert_eq!(e.to_string(), "Invalid data (while loading config): { not toml }");
}

#[test]
fn kind_names() {
    assert_eq!(ErrorKind::Unexpected.as_str(), "Unexpected error");
    assert_eq!(ErrorKind::IOError.as_str(), "I/O error");
    assert_eq!(ErrorKind::InvalidData.as_str(), "Invalid data");
    assert_eq!(ErrorKind::LibrespotError.as_str(), "Librespot internal error");
    assert_eq!(ErrorKind::ChannelClosed.as_str(), "Channel closed");
    assert_eq!(ErrorKind::AuthFailed.as_str(), "Authentication failed");
}

#[test]
fn oauth_error_is_unexpected_while_handling_oauth() {
    let e = Error::oauth("denied");
    assert_eq!(e.to_string(), "Unexpected error (while handling OAuth): { denied }");
}

#[test]
fn librespot_error_kind() {
    let e = Error::librespot("session lost");
    assert_eq!(e.kind, ErrorKind::LibrespotError);
    assert_eq!(e.to_string(), "Librespot internal error: { session lost }");
}

#[test]
fn channel_closed_message() {
    let e = Error::channel_closed();
    assert_eq!(
        e.to_string(),
        "Channel closed: { Currently read MPSC channel has already been closed }"
    );
}

#[test]
fn auth_failed_kind() {
    let e = Error::auth_failed("no credentials");
    assert_eq!(e.kind, ErrorKind::AuthFailed);
    assert!(e.situation.is_none());
}
