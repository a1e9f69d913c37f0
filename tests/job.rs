use download_jobs::job::{Signal, Status};

#[test]
fn status_names_read_back() {
    for s in [
        Status::Canceled,
        Status::Checking,
        Status::Completed,
        Status::Failed,
        Status::Idle,
        Status::Paused,
        Status::Running,
    ] {
        assert_eq!(Status::from_name(s.name()), Some(s));
    }
    assert_eq!(Status::from_name("Canceled"), Some(Status::Canceled));
    assert_eq!(Status::from_name("canceled"), None);
    assert_eq!(Status::from_name(""), None);
}

#[test]
fn status_classes() {
    assert!(Status::Running.is_active());
    assert!(Status::Checking.is_active());
    assert!(!Status::Paused.is_active());
    assert!(Status::Paused.is_final());
    assert!(!Status::Idle.is_final());
    assert!(!Status::Running.is_final());
}

#[test]
fn signal_targets() {
    assert_eq!(Signal::Cancel.target(), Status::Canceled);
    assert_eq!(Signal::Pause.target(), Status::Paused);
}
