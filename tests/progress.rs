use download_jobs::progress::parse_progress;
use regex::Regex;

const ORIGINAL_PATTERN: &str = r"\[download\]\s+(\d+(?:\.\d+)?)%\s+of\s+~?\s+?(\d+(?:\.\d+)?[GMK]iB)\s+at\s+(\d+\.\d+(?:[GMK]i)?B\/s)\s+ETA\s+((\d+:\d+)|(?:Unknown))";

fn fields(line: &str) -> Option<(String, String, String, String)> {
    parse_progress(line).map(|p| (p.percent, p.size_downloaded, p.speed, p.eta))
}

#[test]
fn parses_line_with_estimated_size() {
    let p = parse_progress("[download] 12.3% of ~ 10.00MiB at 1.20MiB/s ETA 00:05").unwrap();
    assert_eq!(p.percent, "12.3");
    assert_eq!(p.size_downloaded, "10.00MiB");
    assert_eq!(p.speed, "1.20MiB/s");
    assert_eq!(p.eta, "00:05");
}

#[test]
fn keeps_unknown_eta_verbatim() {
    let p = parse_progress("[download] 100% of 5.00MiB at 900.00KiB/s ETA Unknown").unwrap();
    assert_eq!(p.eta, "Unknown");
    assert_eq!(p.percent, "100");
    assert_eq!(p.size_downloaded, "5.00MiB");
    assert_eq!(p.speed, "900.00KiB/s");
}

#[test]
fn line_without_marker_gives_no_record() {
    assert!(parse_progress("12.3% of ~ 10.00MiB at 1.20MiB/s ETA 00:05").is_none());
    assert!(parse_progress("[info] Downloading 1 format(s): 22").is_none());
    assert!(parse_progress("").is_none());
}

#[test]
fn marker_without_progress_gives_no_record() {
    assert!(parse_progress("[download] Destination: video.mp4").is_none());
    assert!(parse_progress("[download] 12.3% of ~ 10.00MiB at 1.20MiB/s").is_none());
    assert!(parse_progress("[download] 12.3% of 10.00MB at 1.20MiB/s ETA 00:05").is_none());
    assert!(parse_progress("[download] 12.% of 10.00MiB at 1.20MiB/s ETA 00:05").is_none());
}

#[test]
fn finds_progress_anywhere_in_line() {
    let p = parse_progress("\r  [download]   45.0% of  250.50GiB at  3.00GiB/s ETA 12:34 (frag 3/9)").unwrap();
    assert_eq!(p.percent, "45.0");
    assert_eq!(p.size_downloaded, "250.50GiB");
    assert_eq!(p.speed, "3.00GiB/s");
    assert_eq!(p.eta, "12:34");
}

#[test]
fn rate_without_unit_prefix() {
    let p = parse_progress("[download] 0.1% of 1.00KiB at 512.00B/s ETA 1:02").unwrap();
    assert_eq!(p.speed, "512.00B/s");
    assert_eq!(p.eta, "1:02");
}

#[test]
fn first_progress_line_wins() {
    let p = parse_progress(
        "[download] 1% of 2KiB at 3.0KiB/s ETA 4:05 [download] 9% of 8KiB at 7.0KiB/s ETA 6:05",
    )
    .unwrap();
    assert_eq!(p.percent, "1");
    assert_eq!(p.size_downloaded, "2KiB");
}

#[test]
fn agrees_with_original_pattern_on_padded_lines() {
    let re = Regex::new(ORIGINAL_PATTERN).unwrap();
    let lines = [
        "[download]  12.3% of ~  10.00MiB at  1.20MiB/s ETA 00:05",
        "[download]   0.0% of   3.41GiB at 12.00KiB/s ETA 71:01",
        "[download] 100% of  5.00MiB at 900.00KiB/s ETA Unknown",
        "prefix [download]   7% of  1KiB at 1.0B/s ETA 0:01 suffix",
        "[download] 100% of 5.00MiB in 00:00:01",
        "[youtube] abc: Downloading webpage",
    ];
    for line in lines {
        let expected = re.captures(line).map(|c| {
            (c[1].to_string(), c[2].to_string(), c[3].to_string(), c[4].to_string())
        });
        assert_eq!(fields(line), expected, "line: {}", line);
    }
}
