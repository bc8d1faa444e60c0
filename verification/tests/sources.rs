use videodl::source::{
    classify_codecs, classify_source, recommend_profile, recommended_conversion_profile,
    recommended_output_mode, SourceSummary,
};

fn summary(v: Option<&str>, a: Option<&str>, c: Option<&str>, has_audio: bool) -> SourceSummary {
    SourceSummary {
        vcodec: v.map(|s| s.to_string()),
        acodec: a.map(|s| s.to_string()),
        container: c.map(|s| s.to_string()),
        has_audio,
    }
}

#[test]
fn classify_friendly_sources() {
    assert_eq!(classify_source(&summary(Some("h264"), Some("aac"), Some("mp4"), true)), "friendly");
    assert_eq!(classify_source(&summary(Some("VP9"), Some("opus"), Some("MOV"), true)), "friendly");
    assert_eq!(classify_source(&summary(Some("ProRes"), Some("PCM_S16LE"), None, true)), "friendly");
}

#[test]
fn classify_unfriendly_sources() {
    assert_eq!(classify_source(&summary(Some("vp9"), Some("aac"), Some("mp4"), true)), "unfriendly");
    assert_eq!(classify_source(&summary(Some("h264"), Some("Opus"), Some("mp4"), true)), "unfriendly");
    assert_eq!(classify_source(&summary(Some("avc1"), None, Some("webm"), false)), "unfriendly");
    assert_eq!(classify_source(&summary(Some("AV1"), None, None, false)), "unfriendly");
}

#[test]
fn classify_unknown_sources() {
    assert_eq!(classify_source(&summary(None, None, None, false)), "unknown");
    assert_eq!(
        classify_source(&summary(Some("avc1.64001F"), Some("mp4a.40.2"), Some("mp4"), true)),
        "unknown"
    );
    assert_eq!(classify_source(&summary(Some("h264"), None, Some("mp4"), false)), "unknown");
}

#[test]
fn classify_lowercased_codecs() {
    assert_eq!(classify_codecs("hevc", "none", "mkv"), "unfriendly");
    assert_eq!(classify_codecs("HEVC", "none", "mkv"), "unknown");
    assert_eq!(classify_codecs("mpeg4", "mp3", "avi"), "friendly");
}

#[test]
fn recommended_profiles() {
    let p = |s: SourceSummary| recommended_conversion_profile(&s).unwrap();
    assert_eq!(p(summary(Some("vp9"), Some("none"), Some("webm"), false)), "mp4_h264_aac");
    assert_eq!(p(summary(Some("none"), Some("opus"), Some("webm"), true)), "m4a_aac");
    assert_eq!(p(summary(Some("none"), Some("pcm_s16le"), Some("wav"), true)), "wav");
    assert_eq!(p(summary(None, Some("PCM_F32LE"), None, false)), "wav");
    assert_eq!(p(summary(None, Some("PCM_F32LE"), None, true)), "wav");
    assert_eq!(p(summary(None, None, Some("WAV"), false)), "wav");
    assert_eq!(p(summary(None, None, None, false)), "m4a_aac");
    assert_eq!(p(summary(Some("h264"), Some("aac"), Some("mov"), true)), "mov_prores");
    assert_eq!(p(summary(Some("prores"), Some("aac"), Some("mkv"), true)), "mov_prores");
    assert_eq!(p(summary(Some("ProRes"), None, None, false)), "mov_prores");
    assert_eq!(p(summary(Some("vp9"), Some("opus"), Some("webm"), true)), "mp4_h264_aac");
}

#[test]
fn recommended_profile_from_lowercased() {
    assert_eq!(recommend_profile("h264", "aac", "mp4").unwrap(), "mp4_h264_aac");
    assert_eq!(recommend_profile("h264", "none", "mp4").unwrap(), "mp4_h264_aac");
    assert_eq!(recommend_profile("h264", "aac", "wav").unwrap(), "mp4_h264_aac");
    assert_eq!(recommend_profile("none", "aac", "wav").unwrap(), "wav");
    assert_eq!(recommend_profile("none", "mp3", "mp3").unwrap(), "m4a_aac");
    assert_eq!(recommend_profile("h264", "aac", "mov").unwrap(), "mov_prores");
    assert_eq!(recommend_profile("VP9", "none", "webm").unwrap(), "mp4_h264_aac");
}

#[test]
fn recommended_modes() {
    assert_eq!(recommended_output_mode("unfriendly"), "converted");
    assert_eq!(recommended_output_mode("friendly"), "natural");
    assert_eq!(recommended_output_mode("unknown"), "natural");
}
