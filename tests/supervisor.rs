use download_jobs::cleanup::{files_to_remove, resolved_name};
use download_jobs::events::{handle_send, progress_message, status_message};
use download_jobs::job::{DownloadOptions, JobKey, Signal, Status};
use download_jobs::precheck::PrecheckOutcome;
use download_jobs::progress::parse_progress;
use download_jobs::registry::Registry;
use download_jobs::supervisor::{decide_line, final_status, LineAction, ProcessExit, Supervisor};
use serde_json::Value;

const LINE: &str = "[download] 12.3% of ~ 10.00MiB at 1.20MiB/s ETA 00:05";

fn options() -> DownloadOptions {
    DownloadOptions {
        container: "mp4".to_string(),
        name_format: "%(title)s.%(ext)s".to_string(),
        quality: "best".to_string(),
    }
}

fn json_object(members: &[(&str, &str)]) -> String {
    let mut map = serde_json::Map::new();
    for (name, value) in members {
        map.insert(name.to_string(), Value::String(value.to_string()));
    }
    Value::Object(map).to_string()
}

fn directory() -> Vec<String> {
    vec![
        "My Video.mp4.part".to_string(),
        "My Video.f137.mp4.ytdl".to_string(),
        "Other.mp4".to_string(),
        "notes.txt".to_string(),
    ]
}

#[test]
fn progress_message_is_the_record_as_json() {
    let key = JobKey::parse("https://example.com/watch?v=1").unwrap();
    let p = parse_progress(LINE).unwrap();
    let expected = json_object(&[
        ("url", "https://example.com/watch?v=1"),
        ("percent", "12.3"),
        ("size_downloaded", "10.00MiB"),
        ("speed", "1.20MiB/s"),
        ("eta", "00:05"),
    ]);
    assert_eq!(progress_message(&key, &p), expected);
    assert_eq!(
        expected,
        "{\"eta\":\"00:05\",\"percent\":\"12.3\",\"size_downloaded\":\"10.00MiB\",\"speed\":\"1.20MiB/s\",\"url\":\"https://example.com/watch?v=1\"}"
    );
}

#[test]
fn status_message_names_the_status() {
    let key = JobKey::parse("https://example.com/x").unwrap();
    assert_eq!(
        status_message(&key, Status::Canceled),
        "{\"status\":\"Canceled\",\"url\":\"https://example.com/x\"}"
    );
}

#[test]
fn lines_are_published_or_skipped() {
    let key = JobKey::parse("https://example.com/y").unwrap();
    match decide_line(&key, LINE, None) {
        LineAction::Publish(m) => assert!(m.contains("\"percent\":\"12.3\"")),
        _ => panic!("expected a message"),
    }
    assert!(matches!(decide_line(&key, "[youtube] y: Downloading webpage", None), LineAction::Skip));
    assert!(matches!(decide_line(&key, LINE, Some(Signal::Pause)), LineAction::Halt(Signal::Pause)));
}

#[test]
fn ending_status_of_a_run() {
    assert_eq!(final_status(ProcessExit::Success, None), Status::Completed);
    assert_eq!(final_status(ProcessExit::Failure, None), Status::Failed);
    assert_eq!(final_status(ProcessExit::WaitFailed, None), Status::Failed);
    assert_eq!(final_status(ProcessExit::Failure, Some(Signal::Cancel)), Status::Canceled);
    assert_eq!(final_status(ProcessExit::Failure, Some(Signal::Pause)), Status::Paused);
    assert_eq!(final_status(ProcessExit::WaitFailed, Some(Signal::Cancel)), Status::Canceled);
    assert_eq!(final_status(ProcessExit::Success, Some(Signal::Pause)), Status::Completed);
}

#[test]
fn cancel_mid_run() {
    let mut reg = Registry::new();
    let key = JobKey::parse("https://example.com/v").unwrap();
    let res = reg.register(key.clone(), options()).unwrap();
    let rx = reg.conclude_check(&res, PrecheckOutcome::Accepted).unwrap();
    let mut sup = Supervisor::new(key.clone(), rx);
    assert!(matches!(sup.on_line(LINE), LineAction::Publish(_)));
    assert_eq!(reg.send_signal(&key, Signal::Cancel), Ok(Status::Canceled));
    let action = sup.on_line(LINE);
    assert!(matches!(action, LineAction::Halt(Signal::Cancel)));
    assert!(sup.halted());
    assert!(Signal::Cancel.discards_output());
    let name = resolved_name(true, "My Video\n").unwrap();
    let removed = files_to_remove(&directory(), &name);
    assert_eq!(removed, vec!["My Video.mp4.part".to_string(), "My Video.f137.mp4.ytdl".to_string()]);
    let status = sup.finish(ProcessExit::Failure);
    assert_eq!(status, Status::Canceled);
    assert!(reg.mark_terminal(&res, status));
    assert_eq!(reg.get_status(&key), Some(Status::Canceled));
}

#[test]
fn pause_mid_run() {
    let mut reg = Registry::new();
    let key = JobKey::parse("https://example.com/p").unwrap();
    let res = reg.register(key.clone(), options()).unwrap();
    let rx = reg.conclude_check(&res, PrecheckOutcome::Accepted).unwrap();
    let mut sup = Supervisor::new(key.clone(), rx);
    assert_eq!(reg.send_signal(&key, Signal::Pause), Ok(Status::Paused));
    assert!(matches!(sup.on_line("[download] Destination: My Video.mp4"), LineAction::Halt(Signal::Pause)));
    assert!(!Signal::Pause.discards_output());
    let status = sup.finish(ProcessExit::Failure);
    assert_eq!(status, Status::Paused);
    assert!(reg.mark_terminal(&res, status));
    assert_eq!(reg.get_status(&key), Some(Status::Paused));
}

#[test]
fn run_without_signal() {
    let mut reg = Registry::new();
    let key = JobKey::parse("https://example.com/q").unwrap();
    let res = reg.register(key.clone(), options()).unwrap();
    let rx = reg.conclude_check(&res, PrecheckOutcome::Accepted).unwrap();
    let mut sup = Supervisor::new(key.clone(), rx);
    assert!(matches!(sup.on_line("[info] q: Downloading 1 format(s)"), LineAction::Skip));
    assert!(!sup.halted());
    let status = sup.finish(ProcessExit::Success);
    assert_eq!(status, Status::Completed);
    assert!(reg.mark_terminal(&res, status));
    assert_eq!(reg.get_status(&key), Some(Status::Completed));
}

#[test]
fn cleanup_needs_a_resolved_name() {
    assert_eq!(resolved_name(false, "My Video\n"), None);
    assert_eq!(resolved_name(true, "warning\nMy Video\n"), Some("My Video".to_string()));
    assert!(files_to_remove(&directory(), "Absent").is_empty());
    assert!(files_to_remove(&Vec::new(), "My Video").is_empty());
}

#[test]
fn failed_publish_stays_with_the_publisher() {
    assert!(handle_send::<String>(Ok(())));
    assert!(!handle_send(Err("no subscribers".to_string())));
}
