use videodl::pipeline::ConversionJob;
use videodl::request::DownloadRequest;
use videodl::task::{ExitReport, Heartbeat, RunStep, TaskPhase, TaskState, TaskStatus};

fn request(mode: Option<&str>, profile: Option<&str>) -> DownloadRequest {
    DownloadRequest {
        url: "u".to_string(),
        format_id: None,
        quality_height: None,
        quality_has_audio: None,
        subtitle_langs: Vec::new(),
        subtitle_format: None,
        output_dir: None,
        output_mode: mode.map(|s| s.to_string()),
        conversion_profile: profile.map(|s| s.to_string()),
        split_mode: None,
        split_video: None,
        split_audio: None,
    }
}

#[test]
fn new_task_is_queued() {
    let t = TaskState::new();
    assert_eq!(t.status, TaskStatus::Queued);
    assert_eq!(t.phase, TaskPhase::Queued);
    assert!(!t.cancel_requested);
    assert_eq!(t.last_message.as_deref(), Some("Task queued"));
    assert!(t.output_path.is_none() && t.output_paths.is_empty());
    assert!(t.eta.is_none() && t.error.is_none());
    assert_eq!(t.status.as_str(), "queued");
    assert_eq!(t.phase.as_str(), "queued");
}

#[test]
fn status_and_phase_names() {
    let statuses = [
        (TaskStatus::Queued, "queued"),
        (TaskStatus::Running, "running"),
        (TaskStatus::Cancelling, "cancelling"),
        (TaskStatus::Cancelled, "cancelled"),
        (TaskStatus::Completed, "completed"),
        (TaskStatus::Failed, "failed"),
    ];
    for (s, name) in statuses {
        assert_eq!(s.as_str(), name);
    }
    let phases = [
        (TaskPhase::Queued, "queued"),
        (TaskPhase::Preparing, "preparing"),
        (TaskPhase::Starting, "starting"),
        (TaskPhase::Downloading, "downloading"),
        (TaskPhase::Processing, "processing"),
        (TaskPhase::Cancelling, "cancelling"),
        (TaskPhase::Cancelled, "cancelled"),
        (TaskPhase::Completed, "completed"),
        (TaskPhase::Failed, "failed"),
    ];
    for (p, name) in phases {
        assert_eq!(p.as_str(), name);
    }
}

#[test]
fn cancelling_a_queued_task() {
    let mut t = TaskState::new();
    assert!(t.request_cancel().is_ok());
    assert!(t.cancel_requested);
    assert_eq!(t.status, TaskStatus::Cancelled);
    assert_eq!(t.phase, TaskPhase::Cancelled);
    assert_eq!(t.last_message.as_deref(), Some("Cancelled before download started"));
    assert!(!t.begin_run());
    assert_eq!(t.status, TaskStatus::Cancelled);
    assert_eq!(t.last_message.as_deref(), Some("Cancelled before process start"));
    assert_eq!(t.next_step(0, 1), RunStep::Stop);
    assert_eq!(t.status, TaskStatus::Cancelled);
}

#[test]
fn cancel_flag_seen_at_start_of_run() {
    let mut t = TaskState::new();
    t.status = TaskStatus::Running;
    t.cancel_requested = true;
    assert!(!t.begin_run());
    assert_eq!(t.status, TaskStatus::Cancelled);
    assert_eq!(t.phase, TaskPhase::Cancelled);
    assert_eq!(t.last_message.as_deref(), Some("Cancelled before process start"));
}

#[test]
fn cancelling_a_running_task() {
    let mut t = TaskState::new();
    assert!(t.begin_run());
    assert_eq!(t.status, TaskStatus::Running);
    assert_eq!(t.phase, TaskPhase::Preparing);
    assert_eq!(t.last_message.as_deref(), Some("Preparing yt-dlp command"));
    assert_eq!(t.next_step(0, 1), RunStep::StartPass(0));
    assert_eq!(t.status, TaskStatus::Running);
    t.mark_pass_starting("merged");
    assert_eq!(t.phase, TaskPhase::Starting);
    assert_eq!(t.last_message.as_deref(), Some("Starting merged download pass"));
    assert!(!t.check_pass_cancel("merged"));
    assert!(t.request_cancel().is_ok());
    assert_eq!(t.status, TaskStatus::Cancelling);
    assert_eq!(t.phase, TaskPhase::Cancelling);
    assert_eq!(t.last_message.as_deref(), Some("Cancellation requested"));
    assert!(t.check_pass_cancel("merged"));
    assert_eq!(t.last_message.as_deref(), Some("Stopping merged download pass"));
    t.mark_pass_cancelled();
    assert_eq!(t.status, TaskStatus::Cancelled);
    assert_eq!(t.last_message.as_deref(), Some("Download cancelled by user"));
    assert_eq!(t.next_step(1, 1), RunStep::Stop);
    assert_eq!(t.status, TaskStatus::Cancelled);
    assert_eq!(t.last_message.as_deref(), Some("Download cancelled by user"));
}

#[test]
fn cancel_between_passes() {
    let mut t = TaskState::new();
    t.begin_run();
    assert_eq!(t.next_step(0, 2), RunStep::StartPass(0));
    t.request_cancel().ok().unwrap();
    assert_eq!(t.next_step(1, 2), RunStep::Stop);
    assert_eq!(t.status, TaskStatus::Cancelled);
    assert_eq!(t.phase, TaskPhase::Cancelled);
    assert_eq!(t.last_message.as_deref(), Some("Cancelled before next download pass"));
}

#[test]
fn cancel_after_last_pass_never_completes() {
    let mut t = TaskState::new();
    t.begin_run();
    t.request_cancel().ok().unwrap();
    assert_eq!(t.next_step(1, 1), RunStep::Stop);
    assert_eq!(t.status, TaskStatus::Cancelled);
    assert_eq!(t.last_message.as_deref(), Some("Download cancelled by user"));
    t.mark_completed();
    assert_eq!(t.status, TaskStatus::Cancelled);
}

#[test]
fn run_of_two_passes_completes() {
    let mut t = TaskState::new();
    assert!(t.begin_run());
    let ok = ExitReport { success: true, description: "exit status: 0".to_string() };
    assert_eq!(t.next_step(0, 2), RunStep::StartPass(0));
    t.mark_pass_starting("video");
    assert!(t.record_pass_exit("video", &ok));
    assert_eq!(t.next_step(1, 2), RunStep::StartPass(1));
    t.mark_pass_starting("audio");
    assert!(t.record_pass_exit("audio", &ok));
    assert_eq!(t.next_step(2, 2), RunStep::Complete);
    assert_eq!(t.status, TaskStatus::Completed);
    assert_eq!(t.phase, TaskPhase::Completed);
    assert_eq!(t.last_message.as_deref(), Some("Download completed"));
    assert_eq!(t.next_step(2, 2), RunStep::Stop);
}

#[test]
fn finished_tasks_refuse_cancellation() {
    for finish in 0..3 {
        let mut t = TaskState::new();
        t.begin_run();
        match finish {
            0 => t.mark_completed(),
            1 => t.mark_tool_failed("yt-dlp", "exit status: 1"),
            _ => {
                t.request_cancel().ok().unwrap();
                t.mark_pass_cancelled();
            }
        }
        let before = (t.status, t.phase, t.last_message.clone(), t.cancel_requested);
        let refused = t.request_cancel();
        match refused {
            Err(r) => assert_eq!(r.message(), "Task is already in a terminal state"),
            Ok(()) => panic!("expected a refusal"),
        }
        assert_eq!((t.status, t.phase, t.last_message.clone(), t.cancel_requested), before);
        assert!(t.status.is_terminal());
    }
}

#[test]
fn pass_exits() {
    let mut t = TaskState::new();
    t.begin_run();
    let ok = ExitReport { success: true, description: "exit status: 0".to_string() };
    assert!(t.record_pass_exit("video", &ok));
    assert_eq!(t.phase, TaskPhase::Processing);
    assert_eq!(t.last_message.as_deref(), Some("video download pass completed"));
    let bad = ExitReport { success: false, description: "exit status: 2".to_string() };
    assert!(!t.record_pass_exit("audio", &bad));
    assert_eq!(t.status, TaskStatus::Failed);
    assert_eq!(t.phase, TaskPhase::Failed);
    assert_eq!(t.error.as_deref(), Some("yt-dlp exited with status: exit status: 2"));
    assert_eq!(t.next_step(1, 1), RunStep::Stop);
    assert_eq!(t.phase, TaskPhase::Failed);
    t.mark_completed();
    assert_eq!(t.status, TaskStatus::Failed);
    assert!(t.record_pass_exit("audio", &ok));
    assert_eq!(t.status, TaskStatus::Failed);
    assert_eq!(t.phase, TaskPhase::Processing);
    t.mark_conversion_cancelled();
    assert_eq!(t.status, TaskStatus::Failed);
    assert_eq!(t.phase, TaskPhase::Cancelled);
}

#[test]
fn error_line_then_failed_exit() {
    let mut t = TaskState::new();
    assert!(t.begin_run());
    assert_eq!(t.next_step(0, 1), RunStep::StartPass(0));
    t.mark_pass_starting("merged");
    t.process_output_line("ERROR: unavailable");
    assert_eq!(t.status, TaskStatus::Failed);
    assert_eq!(t.error.as_deref(), Some("ERROR: unavailable"));
    let bad = ExitReport { success: false, description: "exit status: 1".to_string() };
    assert!(!t.record_pass_exit("merged", &bad));
    assert_eq!(t.status, TaskStatus::Failed);
    assert_eq!(t.phase, TaskPhase::Failed);
    assert_eq!(t.error.as_deref(), Some("yt-dlp exited with status: exit status: 1"));
    assert_eq!(t.next_step(1, 1), RunStep::Stop);
    assert_eq!(t.status, TaskStatus::Failed);
    assert_eq!(t.phase, TaskPhase::Failed);
}

#[test]
fn error_line_then_successful_exit_converts() {
    let req = request(Some("converted"), None);
    let mut t = TaskState::new();
    assert!(t.begin_run());
    t.mark_pass_starting("merged");
    t.process_output_line("ERROR: postprocessing warning");
    t.process_output_line("/v/a.webm");
    assert_eq!(t.output_paths, vec!["/v/a.webm"]);
    let ok = ExitReport { success: true, description: "exit status: 0".to_string() };
    assert!(t.record_pass_exit("merged", &ok));
    assert_eq!(t.status, TaskStatus::Failed);
    assert_eq!(t.phase, TaskPhase::Processing);
    assert_eq!(job(&t, &req), Some(("/v/a.webm".to_string(), "mp4_h264_aac".to_string(), false)));
    assert!(t.apply_conversion_success("/v/a.webm", "/v/a_converted.mp4", false, "mp4_h264_aac"));
    assert_eq!(t.output_paths, vec!["/v/a_converted.mp4"]);
    assert_eq!(t.output_path.as_deref(), Some("/v/a_converted.mp4"));
    assert_eq!(t.status, TaskStatus::Failed);
}

#[test]
fn mode_is_read_trimmed_and_lowercased() {
    let mut t = TaskState::new();
    t.process_output_line("/v/a.webm");
    assert_eq!(
        job(&t, &request(Some(" Converted "), None)),
        Some(("/v/a.webm".to_string(), "mp4_h264_aac".to_string(), false))
    );
    assert_eq!(
        job(&t, &request(Some("BOTH"), Some("wav"))),
        Some(("/v/a.webm".to_string(), "wav".to_string(), true))
    );
    assert!(job(&t, &request(Some("Natural"), None)).is_none());
}

#[test]
fn aborted_runs() {
    let mut t = TaskState::new();
    t.begin_run();
    t.mark_aborted("Could not determine download directory");
    assert_eq!(t.status, TaskStatus::Failed);
    assert_eq!(t.phase, TaskPhase::Preparing);
    assert_eq!(t.error.as_deref(), Some("Could not determine download directory"));
    assert_eq!(t.last_message.as_deref(), Some("Download task aborted before progress output"));
}

#[test]
fn heartbeats() {
    let mut t = TaskState::new();
    assert!(matches!(t.heartbeat(true), Heartbeat::Idle));
    assert_eq!(t.phase, TaskPhase::Queued);
    t.begin_run();
    t.mark_pass_starting("merged");
    assert!(matches!(t.heartbeat(false), Heartbeat::Idle));
    assert_eq!(t.phase, TaskPhase::Starting);
    assert!(matches!(t.heartbeat(true), Heartbeat::Promoted));
    assert_eq!(t.phase, TaskPhase::Downloading);
    assert_eq!(
        t.last_message.as_deref(),
        Some("Download in progress (waiting for detailed progress from yt-dlp)")
    );
    assert!(matches!(t.heartbeat(true), Heartbeat::Downloading));
}

fn job(t: &TaskState, req: &DownloadRequest) -> Option<(String, String, bool)> {
    t.conversion_job(req).map(|j: ConversionJob| (j.source_path, j.profile, j.keep_source))
}

#[test]
fn conversion_jobs() {
    let mut t = TaskState::new();
    assert!(job(&t, &request(Some("converted"), None)).is_none());
    t.status = TaskStatus::Running;
    t.process_output_line("/v/a.webm");
    assert!(job(&t, &request(None, None)).is_none());
    assert!(job(&t, &request(Some("natural"), None)).is_none());
    assert_eq!(
        job(&t, &request(Some("converted"), None)),
        Some(("/v/a.webm".to_string(), "mp4_h264_aac".to_string(), false))
    );
    assert_eq!(
        job(&t, &request(Some("both"), Some("wav"))),
        Some(("/v/a.webm".to_string(), "wav".to_string(), true))
    );
}

#[test]
fn conversion_replaces_source() {
    let mut t = TaskState::new();
    t.process_output_line("/v/b.webm");
    t.process_output_line("/v/a.webm");
    t.mark_conversion_starting("mp4_h264_aac");
    assert_eq!(t.phase, TaskPhase::Processing);
    assert_eq!(t.last_message.as_deref(), Some("Starting ffmpeg conversion with profile mp4_h264_aac"));
    assert!(!t.note_conversion_output("   "));
    assert_eq!(t.last_message.as_deref(), Some("Starting ffmpeg conversion with profile mp4_h264_aac"));
    assert!(t.note_conversion_output("frame=10"));
    assert_eq!(t.last_message.as_deref(), Some("frame=10"));
    assert!(t.apply_conversion_success("/v/a.webm", "/v/a_converted.mp4", false, "mp4_h264_aac"));
    assert_eq!(t.output_paths, vec!["/v/b.webm", "/v/a_converted.mp4"]);
    assert_eq!(t.output_path.as_deref(), Some("/v/b.webm"));
    assert_eq!(t.pass_output.as_deref(), Some("/v/a_converted.mp4"));
    assert_eq!(t.last_message.as_deref(), Some("ffmpeg conversion completed using profile mp4_h264_aac"));
}

#[test]
fn conversion_keeps_source() {
    let mut t = TaskState::new();
    t.process_output_line("/v/a.webm");
    assert!(!t.apply_conversion_success("/v/a.webm", "/v/a_converted.wav", true, "wav"));
    assert_eq!(t.output_paths, vec!["/v/a.webm", "/v/a_converted.wav"]);
    assert_eq!(t.output_path.as_deref(), Some("/v/a.webm"));
    assert!(!t.apply_conversion_success("/v/a.webm", "/v/a_converted.wav", true, "wav"));
    assert_eq!(t.output_paths, vec!["/v/a.webm", "/v/a_converted.wav"]);
    assert_eq!(t.output_path.as_deref(), Some("/v/a.webm"));
}

#[test]
fn converted_single_pass() {
    let mut t = TaskState::new();
    t.process_output_line("/v/a.webm");
    assert!(t.apply_conversion_success("/v/a.webm", "/v/a_converted.mp4", false, "mp4_h264_aac"));
    assert_eq!(t.output_paths, vec!["/v/a_converted.mp4"]);
    assert_eq!(t.output_path.as_deref(), Some("/v/a_converted.mp4"));
}

#[test]
fn split_passes_convert_their_own_files() {
    let req = request(Some("converted"), Some("mp4_h264_aac"));
    let mut t = TaskState::new();
    assert!(t.begin_run());
    assert_eq!(t.next_step(0, 2), RunStep::StartPass(0));
    t.mark_pass_starting("video");
    t.process_output_line("/v/x_video.webm");
    assert_eq!(
        job(&t, &req),
        Some(("/v/x_video.webm".to_string(), "mp4_h264_aac".to_string(), false))
    );
    assert!(t.apply_conversion_success("/v/x_video.webm", "/v/x_video_converted.mp4", false, "mp4_h264_aac"));
    assert_eq!(t.next_step(1, 2), RunStep::StartPass(1));
    t.mark_pass_starting("audio");
    assert!(job(&t, &req).is_none());
    t.process_output_line("/v/x_audio.m4a");
    assert_eq!(
        job(&t, &req),
        Some(("/v/x_audio.m4a".to_string(), "mp4_h264_aac".to_string(), false))
    );
    assert!(t.apply_conversion_success("/v/x_audio.m4a", "/v/x_audio_converted.mp4", false, "mp4_h264_aac"));
    assert_eq!(t.output_paths, vec!["/v/x_video_converted.mp4", "/v/x_audio_converted.mp4"]);
    assert_eq!(t.output_path.as_deref(), Some("/v/x_video_converted.mp4"));
    assert_eq!(t.next_step(2, 2), RunStep::Complete);
}

#[test]
fn split_passes_keep_both_outputs() {
    let req = request(Some("both"), Some("wav"));
    let mut t = TaskState::new();
    assert!(t.begin_run());
    t.mark_pass_starting("video");
    t.process_output_line("/v/x_video.webm");
    let (src, _, keep) = job(&t, &req).unwrap();
    assert!(keep);
    assert!(!t.apply_conversion_success(&src, "/v/x_video_converted.wav", keep, "wav"));
    t.mark_pass_starting("audio");
    t.process_output_line("/v/x_audio.m4a");
    let (src, _, keep) = job(&t, &req).unwrap();
    assert_eq!(src, "/v/x_audio.m4a");
    assert!(!t.apply_conversion_success(&src, "/v/x_audio_converted.wav", keep, "wav"));
    assert_eq!(
        t.output_paths,
        vec![
            "/v/x_video.webm",
            "/v/x_video_converted.wav",
            "/v/x_audio.m4a",
            "/v/x_audio_converted.wav"
        ]
    );
    assert_eq!(t.output_path.as_deref(), Some("/v/x_video.webm"));
}

#[test]
fn conversion_cancel_and_failure() {
    let mut t = TaskState::new();
    t.begin_run();
    t.mark_conversion_cancelled();
    assert_eq!(t.status, TaskStatus::Cancelled);
    assert_eq!(t.phase, TaskPhase::Cancelled);
    assert_eq!(t.last_message.as_deref(), Some("Conversion cancelled by user"));
    let mut u = TaskState::new();
    u.mark_tool_failed("ffmpeg", "exit status: 1");
    assert_eq!(u.error.as_deref(), Some("ffmpeg exited with status: exit status: 1"));
}
