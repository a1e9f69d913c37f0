use download_jobs::text::{contains, last_line, same_text};

#[test]
fn last_line_of_output() {
    assert_eq!(last_line("first\nsecond\n"), "second");
    assert_eq!(last_line("only"), "only");
    assert_eq!(last_line("a\r\nb\r\n"), "b");
    assert_eq!(last_line("a\n\n"), "");
    assert_eq!(last_line(""), "");
    assert_eq!(last_line("x\ny"), "y");
    assert_eq!(last_line("Ünïcode title\n"), "Ünïcode title");
}

#[test]
fn substring_search() {
    assert!(contains("My Video.mp4.part", "My Video"));
    assert!(contains("abc", ""));
    assert!(!contains("My Vid", "My Video"));
    assert!(contains("xxabcabd", "abd"));
    assert!(!contains("", "a"));
}

#[test]
fn text_equality() {
    assert!(same_text("Running", "Running"));
    assert!(!same_text("Running", "Runnin"));
    assert!(!same_text("Paused", "Failed"));
}
