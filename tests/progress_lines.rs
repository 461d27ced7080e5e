use download_core::{
    eta_field, filename_field, is_progress, percent_token, speed_field, DownloadProgress,
    DownloadState,
};

fn parsed_percentage(line: &str) -> Option<u32> {
    percent_token(line)
        .and_then(|t| t.parse::<f32>().ok())
        .map(f32::to_bits)
}

fn apply(p: &mut DownloadProgress, line: &str) -> bool {
    let pct = parsed_percentage(line);
    p.apply_line(line, pct)
}

#[test]
fn progress_line_gives_percentage_speed() {
    let line = "[download]  42.5% of 10.00MiB at 1.23MiB/s ETA 00:05";
    let mut p = DownloadProgress::new();
    p.eta = "old".to_string();
    assert!(apply(&mut p, line));
    assert_eq!(f32::from_bits(p.percentage_bits), 42.5);
    // the speed runs up to the next '/', and without a ']' there is no ETA
    assert_eq!(p.speed, "1.23MiB");
    assert_eq!(p.eta, "old");
    assert_eq!(p.filename, "");
}

#[test]
fn progress_line_with_closing_bracket_gives_eta() {
    let line = "[download]  42.5% of 10.00MiB at 1.23MiB/s ETA 00:05 ]";
    let mut p = DownloadProgress::new();
    assert!(apply(&mut p, line));
    assert_eq!(p.eta, "00:05");
}

#[test]
fn destination_line_sets_filename_only() {
    let mut p = DownloadProgress::new();
    assert!(apply(&mut p, "[download]  10.0% of 5MiB at 2MiB/s ETA 00:09]"));
    let before_pct = p.percentage_bits;
    let before_speed = p.speed.clone();
    let before_eta = p.eta.clone();
    assert!(apply(&mut p, "[download] Destination: movie-20240101.mp4"));
    assert_eq!(p.filename, "movie-20240101.mp4");
    assert_eq!(p.percentage_bits, before_pct);
    assert_eq!(p.speed, before_speed);
    assert_eq!(p.eta, before_eta);
}

#[test]
fn line_without_percent_changes_nothing() {
    let mut p = DownloadProgress::new();
    p.percentage_bits = 7.0f32.to_bits();
    p.speed = "1MiB".to_string();
    p.eta = "00:01".to_string();
    p.filename = "a.mp4".to_string();
    assert!(!apply(&mut p, "[download] 100 of 10.00MiB at 1.23MiB/s ETA 00:05]"));
    assert_eq!(f32::from_bits(p.percentage_bits), 7.0);
    assert_eq!(p.speed, "1MiB");
    assert_eq!(p.eta, "00:01");
    assert_eq!(p.filename, "a.mp4");
}

#[test]
fn unparsable_percentage_is_skipped() {
    let mut p = DownloadProgress::new();
    assert!(!apply(&mut p, "[download] abc% at 1MiB/s"));
    assert_eq!(p.speed, "");
    assert_eq!(p.percentage_bits, 0);
}

#[test]
fn informational_line_is_ignored() {
    let mut p = DownloadProgress::new();
    assert!(!apply(&mut p, "[youtube] abc: Downloading webpage 50%"));
    assert_eq!(p.percentage_bits, 0);
}

#[test]
fn percentage_token_for_many_numbers() {
    for n in ["0", "3.5", "99.9", "100", "0.01", "12"] {
        let line = format!("[download] {}% of 1.00MiB trailing words", n);
        assert_eq!(percent_token(&line), Some(n.to_string()));
        let v: f32 = n.parse().unwrap();
        assert_eq!(parsed_percentage(&line), Some(v.to_bits()));
    }
}

#[test]
fn percentage_token_edge_cases() {
    assert_eq!(percent_token("no percent here"), None);
    assert_eq!(percent_token("%"), None);
    assert_eq!(percent_token(" %"), None);
    assert_eq!(percent_token("50%"), None);
    assert_eq!(percent_token(""), None);
    assert_eq!(percent_token("a 5% b 6%"), Some("5".to_string()));
}

#[test]
fn field_extractors() {
    assert_eq!(speed_field("x at  2.5KiB /s"), Some("2.5KiB".to_string()));
    assert_eq!(speed_field("x at 2.5KiB"), None);
    assert_eq!(eta_field("ETA  01:02 ]"), Some("01:02".to_string()));
    assert_eq!(eta_field("ETA 01:02"), None);
    assert_eq!(filename_field("Destination:   a b.mp3  "), Some("a b.mp3".to_string()));
    assert_eq!(filename_field("Destination"), None);
    assert!(is_progress("xx [download] yy"));
    assert!(!is_progress("[down load]"));
}

#[test]
fn progress_read_twice_is_identical() {
    let mut state = DownloadState::new();
    let line = "[download]  42.5% of 10.00MiB at 1.23MiB/s ETA 00:05]";
    assert!(state.record_line(line, parsed_percentage(line)).is_some());
    let a = state.get_download_progress();
    let b = state.get_download_progress();
    assert_eq!(a.percentage_bits, b.percentage_bits);
    assert_eq!(a.speed, b.speed);
    assert_eq!(a.eta, b.eta);
    assert_eq!(a.filename, b.filename);
    assert_eq!(a.speed, "1.23MiB");
}

#[test]
fn record_line_reports_only_updates() {
    let mut state = DownloadState::new();
    assert!(state.record_line("[info] nothing", None).is_none());
    let s = state.record_line("Destination: x.mp4", None).unwrap();
    assert_eq!(s.filename, "x.mp4");
    assert_eq!(state.get_download_progress().filename, "x.mp4");
}

#[test]
fn percentage_outside_range_is_refused() {
    for line in [
        "[download] NaN% of 1MiB at 1MiB/s",
        "[download] inf% of 1MiB at 1MiB/s",
        "[download] -5% of 1MiB at 1MiB/s",
        "[download] 100.5% of 1MiB at 1MiB/s",
    ] {
        let mut p = DownloadProgress::new();
        p.percentage_bits = 3.0f32.to_bits();
        assert!(parsed_percentage(line).is_some());
        assert!(!apply(&mut p, line));
        assert_eq!(f32::from_bits(p.percentage_bits), 3.0);
        assert_eq!(p.speed, "");
    }
    let mut p = DownloadProgress::new();
    assert!(apply(&mut p, "[download] 100% of 1MiB"));
    assert_eq!(f32::from_bits(p.percentage_bits), 100.0);
}

#[test]
fn pushed_snapshot_is_the_stored_one() {
    let mut state = DownloadState::new();
    let line = "[download] 12.5% of 3MiB at 4KiB/s ETA 00:10]";
    let pushed = state.record_line(line, parsed_percentage(line)).unwrap();
    let stored = state.get_download_progress();
    assert_eq!(pushed.percentage_bits, stored.percentage_bits);
    assert_eq!(pushed.speed, stored.speed);
    assert_eq!(pushed.eta, stored.eta);
    assert_eq!(stored.eta, "00:10");
    assert_eq!(f32::from_bits(stored.percentage_bits), 12.5);
}
