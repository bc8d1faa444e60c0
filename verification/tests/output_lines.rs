use videodl::output::{
    classify_output_line, classify_unmatched_line, extract_output_path, path_from_groups,
    progress_report, OutputLine, ProgressHint, PATH_PATTERN, PROGRESS_PATTERN,
};
use videodl::task::{TaskPhase, TaskState, TaskStatus};

#[test]
fn patterns_are_the_servers() {
    assert_eq!(PROGRESS_PATTERN, r"(?i)\[download\].*?(\d+(?:\.\d+)?)%(?:.*?ETA\s+([^\s]+))?");
    assert_eq!(PATH_PATTERN, r#"([A-Za-z]:[\\/][^"\r\n]+|/[^"\r\n]+)"#);
}

fn kind(line: &str) -> String {
    match classify_output_line(line) {
        OutputLine::Progress { percent, eta } => format!("progress {:?} {:?}", percent, eta),
        OutputLine::DownloadNotice => "download".to_string(),
        OutputLine::PostProcessing => "post".to_string(),
        OutputLine::Destination => "destination".to_string(),
        OutputLine::Warning => "warning".to_string(),
        OutputLine::Error => "error".to_string(),
        OutputLine::OutputPath(p) => format!("path {}", p),
        OutputLine::Other => "other".to_string(),
    }
}

#[test]
fn progress_lines() {
    assert_eq!(
        kind("[download]  45.3% of   10.00MiB at    1.00MiB/s ETA 00:05"),
        "progress Some(\"45.3\") Some(\"00:05\")"
    );
    assert_eq!(
        kind("[download]  45.0% of 10.00MiB at 1.00MiB/s ETA 00:05"),
        "progress Some(\"45.0\") Some(\"00:05\")"
    );
    assert_eq!(
        kind("[download] 100% of 10.00MiB in 00:02"),
        "progress Some(\"100\") None"
    );
    assert_eq!(kind("[DOWNLOAD] 100%ETA 00:00"), "progress Some(\"100\") Some(\"00:00\")");
    assert_eq!(kind("[download] 7% done"), "progress Some(\"7\") None");
}

#[test]
fn other_line_kinds() {
    assert_eq!(kind("[download] Destination: /tmp/x.webm"), "download");
    assert_eq!(kind("[Merger] Merging formats into \"x.mkv\""), "post");
    assert_eq!(kind("Deleting original file x.f137.mp4"), "post");
    assert_eq!(kind("[ExtractAudio] Destination: a.m4a"), "post");
    assert_eq!(kind("[info] Destination: later"), "destination");
    assert_eq!(kind("   WARNING: slow"), "warning");
    assert_eq!(kind("ERROR: unavailable"), "error");
    assert_eq!(kind("x WARNING: ERROR: no"), "error");
    assert_eq!(kind("/home/me/Videos/clip.mp4"), "path /home/me/Videos/clip.mp4");
    assert_eq!(kind("\"C:\\Users\\me\\clip.mp4\""), "path C:\\Users\\me\\clip.mp4");
    assert_eq!(kind("[youtube] abc: Downloading webpage"), "other");
    assert_eq!(kind(""), "other");
}

#[test]
fn output_paths_from_lines() {
    assert_eq!(extract_output_path("  (\"/a/b c.mp4\")  ").as_deref(), Some("/a/b c.mp4"));
    assert_eq!(extract_output_path("Destination: \"out.mp4\"").as_deref(), Some("out.mp4"));
    assert_eq!(extract_output_path("Destination:   ").as_deref(), None);
    assert_eq!(extract_output_path("Destination: ").as_deref(), None);
    assert_eq!(extract_output_path("saved to D:/media/x.mkv").as_deref(), Some("D:/media/x.mkv"));
    assert_eq!(extract_output_path("relative/path.mp4").as_deref(), Some("/path.mp4"));
    assert_eq!(extract_output_path("relative.mp4"), None);
    assert_eq!(extract_output_path("   "), None);
    assert_eq!(extract_output_path("\"\"()"), None);
}

#[test]
fn groups_to_progress_and_path() {
    let groups = vec![Some("[download] 5%".to_string()), Some("5".to_string())];
    match progress_report(&groups) {
        OutputLine::Progress { percent, eta } => {
            assert_eq!(percent.as_deref(), Some("5"));
            assert!(eta.is_none());
        }
        _ => panic!("expected progress"),
    }
    assert_eq!(path_from_groups(None), None);
    assert_eq!(path_from_groups(Some(vec![Some("x".to_string())])), None);
    assert_eq!(
        path_from_groups(Some(vec![None, Some("\"/p\"".to_string())])).as_deref(),
        Some("/p")
    );
    assert!(matches!(classify_unmatched_line("[download] 5%"), OutputLine::DownloadNotice));
}

#[test]
fn applying_lines_to_a_task() {
    let mut t = TaskState::new();
    t.status = TaskStatus::Running;
    match t.process_output_line("[download]  12.5% of 3MiB") {
        ProgressHint::Reported(p) => assert_eq!(p.as_deref(), Some("12.5")),
        _ => panic!("expected a report"),
    }
    assert_eq!(t.phase, TaskPhase::Downloading);
    assert_eq!(t.last_message.as_deref(), Some("[download]  12.5% of 3MiB"));
    assert!(matches!(t.process_output_line("[Merger] Merging"), ProgressHint::PostProcessing));
    assert_eq!(t.phase, TaskPhase::Processing);
    assert!(matches!(t.process_output_line("[info] Destination: x"), ProgressHint::DownloadBegun));
    assert!(matches!(t.process_output_line("/out/a.mp4"), ProgressHint::Unchanged));
    assert!(matches!(t.process_output_line("/out/b.mp4"), ProgressHint::Unchanged));
    assert!(matches!(t.process_output_line("/out/a.mp4"), ProgressHint::Unchanged));
    assert_eq!(t.output_path.as_deref(), Some("/out/a.mp4"));
    assert_eq!(t.output_paths, vec!["/out/a.mp4", "/out/b.mp4"]);
    assert_eq!(t.last_message.as_deref(), Some("Final output path captured"));
    t.process_output_line("WARNING: careful");
    assert_eq!(t.last_message.as_deref(), Some("WARNING: careful"));
    assert_eq!(t.status, TaskStatus::Running);
    t.process_output_line("ERROR: broken");
    assert_eq!(t.status, TaskStatus::Failed);
    assert_eq!(t.phase, TaskPhase::Failed);
    assert_eq!(t.error.as_deref(), Some("ERROR: broken"));
    assert!(matches!(t.process_output_line("something else"), ProgressHint::Unchanged));
    assert_eq!(t.last_message.as_deref(), Some("something else"));
    match t.process_output_line("[download] 50%") {
        ProgressHint::Reported(p) => assert_eq!(p.as_deref(), Some("50")),
        _ => panic!("expected a report"),
    }
    assert_eq!(t.phase, TaskPhase::Downloading);
    assert!(matches!(t.process_output_line("/out/c.mp4"), ProgressHint::Unchanged));
    assert_eq!(t.status, TaskStatus::Failed);
    assert_eq!(t.output_paths, vec!["/out/a.mp4", "/out/b.mp4", "/out/c.mp4"]);
    assert_eq!(t.output_path.as_deref(), Some("/out/a.mp4"));
    assert_eq!(t.error.as_deref(), Some("ERROR: broken"));
}

#[test]
fn lines_on_a_cancelled_task() {
    let mut t = TaskState::new();
    t.request_cancel().ok().unwrap();
    t.process_output_line("/out/late.mp4");
    assert_eq!(t.output_path.as_deref(), Some("/out/late.mp4"));
    t.process_output_line("ERROR: late");
    assert_eq!(t.status, TaskStatus::Cancelled);
    assert_eq!(t.phase, TaskPhase::Failed);
    assert_eq!(t.error.as_deref(), Some("ERROR: late"));
}

#[test]
fn eta_is_reported() {
    let mut t = TaskState::new();
    t.status = TaskStatus::Running;
    let line = "[download]  45.0% of 10.00MiB at 1.00MiB/s ETA 00:05";
    match t.process_output_line(line) {
        ProgressHint::Reported(p) => assert_eq!(p.as_deref(), Some("45.0")),
        _ => panic!("expected a report"),
    }
    assert_eq!(t.eta.as_deref(), Some("00:05"));
    assert_eq!(t.phase, TaskPhase::Downloading);
    assert_eq!(t.last_message.as_deref(), Some(line));
    t.process_output_line("[download] 100% of 10.00MiB in 00:02");
    assert_eq!(t.eta, None);
}
