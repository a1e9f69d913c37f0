use download_jobs::job::{DownloadOptions, Error, JobKey, Signal, Status};
use download_jobs::precheck::PrecheckOutcome;
use download_jobs::registry::{send_outcome, Registry};

fn key(text: &str) -> JobKey {
    JobKey::parse(text).unwrap()
}

fn options() -> DownloadOptions {
    DownloadOptions {
        container: "mp4".to_string(),
        name_format: "%(title)s.%(ext)s".to_string(),
        quality: "best".to_string(),
    }
}

#[test]
fn key_is_the_canonical_url() {
    assert_eq!(key("HTTPS://Example.COM").as_str(), "https://example.com/");
    assert_eq!(key("https://example.com/watch?v=1").as_str(), "https://example.com/watch?v=1");
    assert!(JobKey::parse("not a url").is_none());
    assert!(JobKey::parse("").is_none());
    assert!(key("https://example.com").same(&key("https://EXAMPLE.com/")));
}

#[test]
fn register_refuses_active_jobs() {
    let mut reg = Registry::new();
    let res = reg.register(key("https://example.com/a"), options()).unwrap();
    assert_eq!(res.key().as_str(), "https://example.com/a");
    assert_eq!(reg.get_status(&key("https://example.com/a")), Some(Status::Checking));
    let again = reg.register(key("https://example.com/a"), options());
    assert_eq!(again.err(), Some(Error::DownloadAlreadyPresent));

    let _rx = reg.conclude_check(&res, PrecheckOutcome::Accepted).unwrap();
    assert_eq!(reg.get_status(&key("https://example.com/a")), Some(Status::Running));
    let again = reg.register(key("https://example.com/a"), options());
    assert_eq!(again.err(), Some(Error::DownloadAlreadyPresent));
}

#[test]
fn register_replaces_ended_jobs() {
    for end in [Status::Canceled, Status::Completed, Status::Failed, Status::Paused] {
        let mut reg = Registry::new();
        let res = reg.register(key("https://example.com/b"), options()).unwrap();
        let _rx = reg.conclude_check(&res, PrecheckOutcome::Accepted).unwrap();
        assert!(reg.mark_terminal(&res, end));
        assert_eq!(reg.get_status(&key("https://example.com/b")), Some(end));
        let next = reg.register(key("https://example.com/b"), options());
        assert!(next.is_ok());
        assert_eq!(reg.get_status(&key("https://example.com/b")), Some(Status::Checking));
        assert!(!reg.mark_terminal(&res, Status::Completed));
        assert_eq!(reg.get_status(&key("https://example.com/b")), Some(Status::Checking));
    }
}

#[test]
fn signal_needs_a_running_job() {
    let mut reg = Registry::new();
    assert_eq!(reg.send_signal(&key("https://example.com/none"), Signal::Cancel), Err(Error::NotDownloading));
    let res = reg.register(key("https://example.com/c"), options()).unwrap();
    assert_eq!(reg.send_signal(&key("https://example.com/c"), Signal::Pause), Err(Error::NotDownloading));
    let _rx = reg.conclude_check(&res, PrecheckOutcome::Accepted).unwrap();
    for end in [Status::Completed, Status::Failed, Status::Canceled, Status::Paused] {
        assert!(reg.mark_terminal(&res, end));
        assert_eq!(reg.send_signal(&key("https://example.com/c"), Signal::Cancel), Err(Error::NotDownloading));
        assert_eq!(reg.send_signal(&key("https://example.com/c"), Signal::Pause), Err(Error::NotDownloading));
        assert_eq!(reg.get_status(&key("https://example.com/c")), Some(end));
    }
}

#[test]
fn second_cancel_is_refused() {
    let mut reg = Registry::new();
    let res = reg.register(key("https://example.com/d"), options()).unwrap();
    let mut rx = reg.conclude_check(&res, PrecheckOutcome::Accepted).unwrap();
    assert_eq!(reg.send_signal(&key("https://example.com/d"), Signal::Cancel), Ok(Status::Canceled));
    assert_eq!(reg.get_status(&key("https://example.com/d")), Some(Status::Canceled));
    assert_eq!(reg.send_signal(&key("https://example.com/d"), Signal::Cancel), Err(Error::NotDownloading));
    assert!(matches!(rx.try_recv(), Ok(Signal::Cancel)));
    assert!(rx.try_recv().is_err());
}

#[test]
fn pause_is_acknowledged_at_once() {
    let mut reg = Registry::new();
    let res = reg.register(key("https://example.com/e"), options()).unwrap();
    let mut rx = reg.conclude_check(&res, PrecheckOutcome::Accepted).unwrap();
    assert_eq!(reg.send_signal(&key("https://example.com/e"), Signal::Pause), Ok(Status::Paused));
    assert_eq!(reg.get_status(&key("https://example.com/e")), Some(Status::Paused));
    assert!(matches!(rx.try_recv(), Ok(Signal::Pause)));
}

#[test]
fn signal_to_a_gone_supervisor_fails_to_halt() {
    let mut reg = Registry::new();
    let res = reg.register(key("https://example.com/f"), options()).unwrap();
    let rx = reg.conclude_check(&res, PrecheckOutcome::Accepted).unwrap();
    drop(rx);
    assert_eq!(reg.send_signal(&key("https://example.com/f"), Signal::Cancel), Err(Error::FailedToHalt));
    assert_eq!(reg.get_status(&key("https://example.com/f")), Some(Status::Running));
}

#[test]
fn answer_to_a_signal() {
    assert_eq!(send_outcome(Signal::Cancel, true), Ok(Status::Canceled));
    assert_eq!(send_outcome(Signal::Pause, true), Ok(Status::Paused));
    assert_eq!(send_outcome(Signal::Pause, false), Err(Error::FailedToHalt));
}

#[test]
fn failed_precheck_never_runs() {
    let mut reg = Registry::new();
    let res = reg.register(key("https://example.com/g"), options()).unwrap();
    assert_eq!(reg.conclude_check(&res, PrecheckOutcome::Rejected).err(), Some(Error::FailedCheck));
    assert_eq!(reg.get_status(&key("https://example.com/g")), Some(Status::Failed));
    assert_eq!(reg.conclude_check(&res, PrecheckOutcome::Accepted).err(), Some(Error::FailedToStart));
    assert_eq!(reg.get_status(&key("https://example.com/g")), Some(Status::Failed));
    assert_eq!(reg.send_signal(&key("https://example.com/g"), Signal::Cancel), Err(Error::NotDownloading));
}

#[test]
fn precheck_that_cannot_launch() {
    let mut reg = Registry::new();
    let res = reg.register(key("https://example.com/h"), options()).unwrap();
    let r = reg.conclude_check(&res, PrecheckOutcome::NotLaunched("no such file".to_string()));
    assert_eq!(r.err(), Some(Error::General { cause: "no such file".to_string() }));
    assert_eq!(reg.get_status(&key("https://example.com/h")), Some(Status::Failed));
}

#[test]
fn lists_each_key_once() {
    let mut reg = Registry::new();
    assert!(reg.list_keys().is_empty());
    let a = reg.register(key("https://example.com/1"), options()).unwrap();
    reg.register(key("https://example.com/2"), options()).unwrap();
    reg.conclude_check(&a, PrecheckOutcome::Rejected).unwrap_err();
    reg.register(key("https://example.com/1"), options()).unwrap();
    let mut keys: Vec<String> = reg.list_keys().iter().map(|k| k.as_str().to_string()).collect();
    keys.sort();
    assert_eq!(keys, vec!["https://example.com/1".to_string(), "https://example.com/2".to_string()]);
    assert_eq!(reg.get_status(&key("https://example.com/3")), None);
}

#[test]
fn spawn_failure_ends_the_run() {
    let mut reg = Registry::new();
    let res = reg.register(key("https://example.com/s"), options()).unwrap();
    let _rx = reg.conclude_check(&res, PrecheckOutcome::Accepted).unwrap();
    assert_eq!(reg.start_failed(&res), Error::FailedToStart);
    assert_eq!(reg.get_status(&key("https://example.com/s")), Some(Status::Failed));
    assert_eq!(reg.send_signal(&key("https://example.com/s"), Signal::Cancel), Err(Error::NotDownloading));
}
