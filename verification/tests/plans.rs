use videodl::request::{
    build_download_passes, build_natural_download_passes, build_output_template,
    build_split_audio_selector, build_split_video_selector, build_ytdlp_args,
    conversion_profile_for, default_conversion_profile, keeps_natural_output,
    plan_download_passes, should_run_explicit_conversion, DownloadPass, DownloadRequest, PlanError,
};

fn request() -> DownloadRequest {
    DownloadRequest {
        url: "https://www.youtube.com/watch?v=abc".to_string(),
        format_id: None,
        quality_height: None,
        quality_has_audio: None,
        subtitle_langs: Vec::new(),
        subtitle_format: None,
        output_dir: None,
        output_mode: None,
        conversion_profile: None,
        split_mode: None,
        split_video: None,
        split_audio: None,
    }
}

fn summary(passes: &[DownloadPass]) -> Vec<(String, String, Option<String>)> {
    passes
        .iter()
        .map(|p| (p.label.to_string(), p.format_selector.clone(), p.output_suffix.map(|s| s.to_string())))
        .collect()
}

#[test]
fn merged_pass_uses_default_selector_when_no_format() {
    let passes = build_download_passes(&request()).ok().unwrap();
    assert_eq!(
        summary(&passes),
        vec![("merged".to_string(), "bestvideo+bestaudio/best".to_string(), None)]
    );
}

#[test]
fn merged_pass_uses_requested_format() {
    let mut req = request();
    req.format_id = Some("299".to_string());
    let passes = build_natural_download_passes(&req).ok().unwrap();
    assert_eq!(summary(&passes), vec![("merged".to_string(), "299".to_string(), None)]);
}

#[test]
fn split_mode_runs_video_then_audio() {
    let mut req = request();
    req.split_mode = Some(true);
    req.quality_height = Some(1080);
    let passes = build_download_passes(&req).ok().unwrap();
    assert_eq!(
        summary(&passes),
        vec![
            (
                "video".to_string(),
                "bestvideo[height<=1080]/bestvideo".to_string(),
                Some("video".to_string())
            ),
            ("audio".to_string(), "bestaudio/best".to_string(), Some("audio".to_string())),
        ]
    );
}

#[test]
fn split_mode_audio_only() {
    let mut req = request();
    req.split_mode = Some(true);
    req.split_video = Some(false);
    let passes = build_download_passes(&req).ok().unwrap();
    assert_eq!(
        summary(&passes),
        vec![("audio".to_string(), "bestaudio/best".to_string(), Some("audio".to_string()))]
    );
}

#[test]
fn split_mode_without_streams_is_refused() {
    let mut req = request();
    req.split_mode = Some(true);
    req.split_video = Some(false);
    req.split_audio = Some(false);
    match build_download_passes(&req) {
        Err(e) => {
            assert!(matches!(e, PlanError::NoSplitStream));
            assert_eq!(e.message(), "Split mode requires at least one of video or audio");
        }
        Ok(_) => panic!("expected an error"),
    }
}

#[test]
fn unknown_output_mode_is_refused() {
    let mut req = request();
    req.output_mode = Some("  Fancy ".to_string());
    match build_download_passes(&req) {
        Err(e) => assert_eq!(e.message(), "Unsupported output mode: fancy"),
        Ok(_) => panic!("expected an error"),
    }
}

#[test]
fn output_mode_is_trimmed_and_lowercased() {
    for mode in ["natural", " Converted ", "BOTH", "\tboth\n"] {
        let mut req = request();
        req.output_mode = Some(mode.to_string());
        let passes = build_download_passes(&req).ok().unwrap();
        assert_eq!(passes.len(), 1);
        assert_eq!(passes[0].label, "merged");
    }
}

#[test]
fn plan_for_normalized_mode() {
    let req = request();
    assert!(plan_download_passes(&req, "converted").is_ok());
    match plan_download_passes(&req, "Natural") {
        Err(PlanError::UnsupportedOutputMode(m)) => assert_eq!(m, "Natural"),
        _ => panic!("expected an error"),
    }
}

#[test]
fn video_selector_variants() {
    let mut req = request();
    assert_eq!(build_split_video_selector(&req), "bestvideo");
    req.quality_height = Some(720);
    assert_eq!(build_split_video_selector(&req), "bestvideo[height<=720]/bestvideo");
    req.quality_has_audio = Some(false);
    assert_eq!(build_split_video_selector(&req), "bestvideo");
    req.format_id = Some("137".to_string());
    assert_eq!(build_split_video_selector(&req), "137");
    req.quality_has_audio = Some(true);
    req.quality_height = Some(0);
    assert_eq!(build_split_video_selector(&req), "bestvideo[height<=0]/bestvideo");
    req.quality_height = Some(u64::MAX);
    assert_eq!(
        build_split_video_selector(&req),
        "bestvideo[height<=18446744073709551615]/bestvideo"
    );
    assert_eq!(build_split_audio_selector(), "bestaudio/best");
}

#[test]
fn output_templates() {
    assert_eq!(build_output_template(None), "%(title)s.%(ext)s");
    assert_eq!(build_output_template(Some("video")), "%(title)s_video.%(ext)s");
    assert_eq!(build_output_template(Some("audio")), "%(title)s_audio.%(ext)s");
}

#[test]
fn explicit_conversion_reads_mode_normalized() {
    let mut req = request();
    assert!(!should_run_explicit_conversion(&req));
    req.output_mode = Some("converted".to_string());
    assert!(should_run_explicit_conversion(&req));
    req.output_mode = Some("both".to_string());
    assert!(should_run_explicit_conversion(&req));
    req.output_mode = Some(" both".to_string());
    assert!(should_run_explicit_conversion(&req));
    req.output_mode = Some("Converted".to_string());
    assert!(should_run_explicit_conversion(&req));
    req.output_mode = Some(" NATURAL ".to_string());
    assert!(!should_run_explicit_conversion(&req));
    req.output_mode = Some("convert".to_string());
    assert!(!should_run_explicit_conversion(&req));
}

#[test]
fn keeping_the_natural_file() {
    let mut req = request();
    assert!(!keeps_natural_output(&req));
    req.output_mode = Some(" both ".to_string());
    assert!(keeps_natural_output(&req));
    req.output_mode = Some("converted".to_string());
    assert!(!keeps_natural_output(&req));
    req.output_mode = Some("Both".to_string());
    assert!(keeps_natural_output(&req));
}

#[test]
fn conversion_profile_defaults() {
    let mut req = request();
    assert_eq!(default_conversion_profile(&req), "mp4_h264_aac");
    req.quality_has_audio = Some(false);
    assert_eq!(default_conversion_profile(&req), "mp4_h264_aac");
    assert_eq!(conversion_profile_for(&req), "mp4_h264_aac");
    req.conversion_profile = Some("wav".to_string());
    assert_eq!(conversion_profile_for(&req), "wav");
}

#[test]
fn ytdlp_command_line_without_subtitles() {
    let req = request();
    let passes = build_download_passes(&req).ok().unwrap();
    let args = build_ytdlp_args(&req, "/downloads", &passes[0]);
    assert_eq!(
        args,
        vec![
            "--newline",
            "--no-playlist",
            "--print",
            "after_move:filepath",
            "-P",
            "/downloads",
            "-o",
            "%(title)s.%(ext)s",
            "-f",
            "bestvideo+bestaudio/best",
            "https://www.youtube.com/watch?v=abc",
        ]
    );
}

#[test]
fn ytdlp_command_line_with_subtitles() {
    let mut req = request();
    req.subtitle_langs = vec!["en".to_string(), "en-US".to_string()];
    req.subtitle_format = Some("srt".to_string());
    req.split_mode = Some(true);
    req.split_video = Some(false);
    let passes = build_download_passes(&req).ok().unwrap();
    let args = build_ytdlp_args(&req, "out", &passes[0]);
    assert_eq!(
        args,
        vec![
            "--newline",
            "--no-playlist",
            "--print",
            "after_move:filepath",
            "-P",
            "out",
            "-o",
            "%(title)s_audio.%(ext)s",
            "-f",
            "bestaudio/best",
            "--write-subs",
            "--write-auto-subs",
            "--sub-langs",
            "en,en-US",
            "--sub-format",
            "srt",
            "https://www.youtube.com/watch?v=abc",
        ]
    );
}

#[test]
fn ytdlp_command_line_with_subtitles_no_format() {
    let mut req = request();
    req.subtitle_langs = vec!["de".to_string()];
    let passes = build_download_passes(&req).ok().unwrap();
    let args = build_ytdlp_args(&req, "out", &passes[0]);
    assert_eq!(&args[10..], &["--write-subs", "--write-auto-subs", "--sub-langs", "de", "https://www.youtube.com/watch?v=abc"]);
}
