//! Tests of the error taxonomy and of its one translation rule.

use embedded_daemon::error::{map_collaborator, DaemonError};

#[test]
fn map_collaborator_passes_success_through() {
    assert_eq!(map_collaborator::<u32>(Ok(5)), Ok(5));
    assert_eq!(map_collaborator::<()>(Ok(())), Ok(()));
}

#[test]
fn map_collaborator_wraps_failure_detail() {
    assert_eq!(
        map_collaborator::<u32>(Err("broken pipe".to_string())),
        Err(DaemonError::Unexpected("broken pipe".to_string()))
    );
}

#[test]
fn detail_is_carried_by_start_and_unexpected_only() {
    let start = DaemonError::Start("bad config".to_string());
    let stopped = DaemonError::DaemonStopped;
    let unexpected = DaemonError::Unexpected("boom".to_string());
    assert_eq!(start.detail(), Some(&"bad config".to_string()));
    assert_eq!(stopped.detail(), None);
    assert_eq!(unexpected.detail(), Some(&"boom".to_string()));
}
