use videodl::conversion::{
    build_ffmpeg_conversion_args, conversion_location, conversion_output_path,
    conversion_target_extension, ConversionError,
};

#[test]
fn target_extensions() {
    assert_eq!(conversion_target_extension("mp4_h264_aac"), "mp4");
    assert_eq!(conversion_target_extension("mov_prores"), "mov");
    assert_eq!(conversion_target_extension("m4a_aac"), "m4a");
    assert_eq!(conversion_target_extension("wav"), "wav");
    assert_eq!(conversion_target_extension("flac"), "mp4");
    assert_eq!(conversion_target_extension(""), "mp4");
}

#[test]
fn ffmpeg_args_mp4() {
    let args = build_ffmpeg_conversion_args("mp4_h264_aac", "in.webm", "out.mp4").ok().unwrap();
    assert_eq!(
        args,
        vec![
            "-y", "-i", "in.webm", "-c:v", "libx264", "-preset", "medium", "-crf", "20", "-c:a",
            "aac", "-movflags", "+faststart", "out.mp4",
        ]
    );
}

#[test]
fn ffmpeg_args_mov() {
    let args = build_ffmpeg_conversion_args("mov_prores", "a", "b").ok().unwrap();
    assert_eq!(
        args,
        vec!["-y", "-i", "a", "-c:v", "prores_ks", "-profile:v", "3", "-c:a", "pcm_s16le", "b"]
    );
}

#[test]
fn ffmpeg_args_m4a_and_wav() {
    let args = build_ffmpeg_conversion_args("m4a_aac", "a", "b").ok().unwrap();
    assert_eq!(args, vec!["-y", "-i", "a", "-vn", "-c:a", "aac", "-b:a", "192k", "b"]);
    let args = build_ffmpeg_conversion_args("wav", "a", "b").ok().unwrap();
    assert_eq!(args, vec!["-y", "-i", "a", "-vn", "-c:a", "pcm_s16le", "b"]);
}

#[test]
fn ffmpeg_args_unknown_profile() {
    match build_ffmpeg_conversion_args("mp3", "a", "b") {
        Err(e) => {
            let ConversionError::UnsupportedProfile(p) = &e;
            assert_eq!(p, "mp3");
            assert_eq!(e.message(), "Unsupported conversion profile: mp3");
        }
        Ok(_) => panic!("expected an error"),
    }
}

#[test]
fn converted_location_defaults() {
    let (dir, name) = conversion_location(None, None, "wav");
    assert_eq!(dir, ".");
    assert_eq!(name, "output_converted.wav");
    let (dir, name) = conversion_location(Some("/x".to_string()), Some("clip".to_string()), "odd");
    assert_eq!(dir, "/x");
    assert_eq!(name, "clip_converted.mp4");
}

#[test]
fn converted_path_beside_source() {
    assert_eq!(
        conversion_output_path("/tmp/videos/My Clip.webm", "mp4_h264_aac"),
        "/tmp/videos/My Clip_converted.mp4"
    );
    assert_eq!(conversion_output_path("song.opus", "wav"), "song_converted.wav");
    assert_eq!(conversion_output_path("/data/a.b.c.mkv", "mov_prores"), "/data/a.b.c_converted.mov");
}
