use videodl::inspect::{
    build_inspect_response, extract_qualities, extract_subtitles, rank_qualities,
    source_summary_from_quality, FormatEntry, Metadata, QualityOption, SubtitleTrack,
};

fn entry(id: Option<&str>, v: Option<&str>, a: Option<&str>, h: Option<u64>, size: Option<u64>) -> FormatEntry {
    FormatEntry {
        format_id: id.map(|s| s.to_string()),
        vcodec: v.map(|s| s.to_string()),
        acodec: a.map(|s| s.to_string()),
        height: h,
        fps_text: None,
        ext: Some("mp4".to_string()),
        filesize: size,
        format_note: None,
    }
}

fn metadata(formats: Option<Vec<FormatEntry>>) -> Metadata {
    Metadata {
        title: Some("A video".to_string()),
        webpage_url: Some("https://example.com/v".to_string()),
        formats,
        subtitles: None,
        automatic_captions: None,
    }
}

#[test]
fn qualities_offer_audio_only_and_skip_unnamed_formats() {
    let m = metadata(Some(vec![
        entry(Some("140"), Some("none"), Some("mp4a.40.2"), None, Some(10)),
        entry(None, Some("avc1"), Some("none"), Some(720), None),
        entry(Some("137"), Some("avc1"), Some("none"), Some(1080), Some(100)),
        entry(Some("22"), None, Some("mp4a"), Some(720), None),
        entry(Some("sb0"), Some("none"), Some("none"), None, None),
    ]));
    let q = extract_qualities(&m);
    assert_eq!(q.len(), 3);
    assert_eq!(q[0].format_id, "140");
    assert_eq!(q[0].download_selector, "140");
    assert!(q[0].has_audio);
    assert_eq!(q[0].source_index, 0);
    assert_eq!(q[0].label, "?p   (140)");
    assert_eq!(q[1].format_id, "137");
    assert_eq!(q[1].download_selector, "137+bestaudio/best");
    assert!(!q[1].has_audio);
    assert_eq!(q[1].source_index, 2);
    assert_eq!(q[2].format_id, "22");
    assert_eq!(q[2].download_selector, "22");
    assert!(q[2].has_audio);
    assert_eq!(q[2].source_index, 3);
}

#[test]
fn audio_only_format_is_offered() {
    let mut e = entry(Some("140"), Some("none"), Some("mp4a.40.2"), None, None);
    e.ext = Some("m4a".to_string());
    let q = extract_qualities(&metadata(Some(vec![e])));
    assert_eq!(q.len(), 1);
    assert_eq!(q[0].format_id, "140");
    assert!(q[0].has_audio);
    assert_eq!(q[0].download_selector, "140");
    assert_eq!(q[0].container.as_deref(), Some("m4a"));
}

#[test]
fn quality_labels() {
    let mut e = entry(Some("299"), Some("avc1"), Some("none"), Some(1080), None);
    e.fps_text = Some("60".to_string());
    e.format_note = Some("1080p60".to_string());
    let mut audio = entry(Some("18"), Some("avc1"), Some("mp4a"), None, None);
    audio.format_note = None;
    let q = extract_qualities(&metadata(Some(vec![e, audio])));
    assert_eq!(q[0].label, "1080p 60fps 1080p60 (299) + bestaudio");
    assert_eq!(q[1].label, "?p   (18)");
    assert_eq!(q[1].container.as_deref(), Some("mp4"));
}

#[test]
fn no_formats_no_qualities() {
    assert!(extract_qualities(&metadata(None)).is_empty());
    assert!(extract_qualities(&metadata(Some(Vec::new()))).is_empty());
}

fn quality(id: &str, h: Option<u64>, size: Option<u64>) -> QualityOption {
    QualityOption {
        format_id: id.to_string(),
        download_selector: id.to_string(),
        label: id.to_string(),
        height: h,
        ext: None,
        filesize: size,
        has_audio: true,
        vcodec: None,
        acodec: None,
        container: None,
        source_index: 0,
    }
}

#[test]
fn ranking_is_tallest_then_largest_and_stable() {
    let mut qs = vec![
        quality("a", Some(720), Some(5)),
        quality("b", None, Some(100)),
        quality("c", Some(1080), None),
        quality("d", Some(720), Some(9)),
        quality("e", Some(720), Some(5)),
        quality("f", Some(1080), Some(1)),
        quality("g", None, None),
    ];
    rank_qualities(&mut qs);
    let ids: Vec<&str> = qs.iter().map(|q| q.format_id.as_str()).collect();
    assert_eq!(ids, vec!["f", "c", "d", "a", "e", "b", "g"]);
}

#[test]
fn ranking_empty_and_single() {
    let mut qs: Vec<QualityOption> = Vec::new();
    rank_qualities(&mut qs);
    assert!(qs.is_empty());
    let mut one = vec![quality("x", None, None)];
    rank_qualities(&mut one);
    assert_eq!(one[0].format_id, "x");
}

#[test]
fn subtitles_manual_then_auto() {
    let mut m = metadata(None);
    m.subtitles = Some(vec![SubtitleTrack {
        language: "en".to_string(),
        entries: Some(vec![Some("vtt".to_string()), None, Some("srt".to_string())]),
    }]);
    m.automatic_captions = Some(vec![
        SubtitleTrack { language: "de".to_string(), entries: None },
        SubtitleTrack { language: "fr".to_string(), entries: Some(vec![Some("json3".to_string())]) },
    ]);
    let subs = extract_subtitles(&m);
    assert_eq!(subs.len(), 3);
    assert_eq!((subs[0].language.as_str(), subs[0].kind.as_str()), ("en", "manual"));
    assert_eq!(subs[0].formats, vec!["vtt", "srt"]);
    assert_eq!((subs[1].language.as_str(), subs[1].kind.as_str()), ("de", "auto"));
    assert!(subs[1].formats.is_empty());
    assert_eq!(subs[2].formats, vec!["json3"]);
}

#[test]
fn response_recommends_from_best_quality() {
    let mut best = entry(Some("313"), Some("vp9"), Some("none"), Some(2160), Some(9000));
    best.ext = Some("webm".to_string());
    let m = metadata(Some(vec![
        entry(Some("18"), Some("avc1"), Some("mp4a"), Some(360), Some(10)),
        best,
    ]));
    let r = build_inspect_response(&m);
    assert_eq!(r.title, "A video");
    assert_eq!(r.webpage_url.as_deref(), Some("https://example.com/v"));
    assert_eq!(r.default_format_id.as_deref(), Some("313+bestaudio/best"));
    assert_eq!(r.source_video_codec.as_deref(), Some("vp9"));
    assert_eq!(r.source_audio_codec.as_deref(), Some("none"));
    assert_eq!(r.source_container.as_deref(), Some("webm"));
    assert_eq!(r.source_classification, "unfriendly");
    assert_eq!(r.recommended_output_mode, "converted");
    assert_eq!(r.recommended_conversion_profile.as_deref(), Some("mp4_h264_aac"));
    assert_eq!(r.qualities[0].format_id, "313");
    assert_eq!(r.qualities[1].format_id, "18");
}

#[test]
fn response_for_audio_only_source() {
    let mut a = entry(Some("251"), Some("none"), Some("opus"), None, Some(50));
    a.ext = Some("webm".to_string());
    let r = build_inspect_response(&metadata(Some(vec![a])));
    assert_eq!(r.default_format_id.as_deref(), Some("251"));
    assert_eq!(r.source_video_codec.as_deref(), Some("none"));
    assert_eq!(r.recommended_conversion_profile.as_deref(), Some("m4a_aac"));
}

#[test]
fn response_without_qualities() {
    let mut m = metadata(None);
    m.title = None;
    m.webpage_url = None;
    let r = build_inspect_response(&m);
    assert_eq!(r.title, "Unknown title");
    assert!(r.webpage_url.is_none());
    assert!(r.default_format_id.is_none());
    assert!(r.source_video_codec.is_none());
    assert_eq!(r.source_classification, "unknown");
    assert_eq!(r.recommended_output_mode, "natural");
    assert!(r.recommended_conversion_profile.is_none());
}

#[test]
fn summary_of_quality() {
    let q = extract_qualities(&metadata(Some(vec![entry(Some("1"), Some("h264"), Some("aac"), None, None)])));
    let s = source_summary_from_quality(&q[0]);
    assert_eq!(s.vcodec.as_deref(), Some("h264"));
    assert_eq!(s.acodec.as_deref(), Some("aac"));
    assert_eq!(s.container.as_deref(), Some("mp4"));
    assert!(s.has_audio);
}
