use work_application::errors::{ApplicationError, WorkProtocolError};

#[test]
fn commit_status_unknown_surfaces_as_temporarily_unavailable() {
    assert_eq!(
        ApplicationError::CommitStatusUnknown.into_protocol_error(),
        WorkProtocolError::TemporarilyUnavailable
    );
}

#[test]
fn not_visible_keeps_its_protocol_meaning() {
    assert_eq!(ApplicationError::NotVisible.into_protocol_error(), WorkProtocolError::NotVisible);
}
