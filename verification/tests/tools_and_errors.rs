use videodl::errors::ApiError;
use videodl::tools::{
    choose_ffmpeg_executable, choose_ytdlp_executable, ffmpeg_override, winget_ffmpeg_candidate,
    ytdlp_candidates,
};

#[test]
fn ytdlp_choice() {
    assert_eq!(ytdlp_candidates(), vec![".venv/Scripts/yt-dlp.exe", "../.venv/Scripts/yt-dlp.exe"]);
    assert_eq!(choose_ytdlp_executable(Some(" /opt/yt ".to_string()), &vec![true, true]), " /opt/yt ");
    assert_eq!(choose_ytdlp_executable(Some("   ".to_string()), &vec![false, true]), "../.venv/Scripts/yt-dlp.exe");
    assert_eq!(choose_ytdlp_executable(None, &vec![true, false]), ".venv/Scripts/yt-dlp.exe");
    assert_eq!(choose_ytdlp_executable(None, &vec![false, false]), "yt-dlp");
    assert_eq!(choose_ytdlp_executable(None, &Vec::new()), "yt-dlp");
}

#[test]
fn ffmpeg_choice() {
    assert_eq!(ffmpeg_override("  /usr/bin/ffmpeg \n").as_deref(), Some("/usr/bin/ffmpeg"));
    assert_eq!(ffmpeg_override("   "), None);
    assert_eq!(choose_ffmpeg_executable(Some("/opt/ff".to_string()), true, None), "/opt/ff/ffmpeg.exe");
    assert_eq!(
        choose_ffmpeg_executable(Some("/opt/ff/ffmpeg".to_string()), false, Some("w".to_string())),
        "/opt/ff/ffmpeg"
    );
    assert_eq!(choose_ffmpeg_executable(None, false, Some("w".to_string())), "w");
    assert_eq!(choose_ffmpeg_executable(None, true, None), "ffmpeg");
    assert_eq!(
        winget_ffmpeg_candidate("/lad"),
        "/lad/Microsoft/WinGet/Packages/Gyan.FFmpeg_Microsoft.Winget.Source_8wekyb3d8bbwe/ffmpeg-8.1-full_build/bin/ffmpeg.exe"
    );
}

#[test]
fn api_errors() {
    let e = ApiError::internal("boom");
    assert_eq!((e.status, e.message.as_str()), (500, "boom"));
    let e = ApiError::bad_request("bad");
    assert_eq!((e.status, e.message.as_str()), (400, "bad"));
    let e = ApiError::not_found("Task not found");
    assert_eq!((e.status, e.message.as_str()), (404, "Task not found"));
    let e = ApiError::conflict("Task is already in a terminal state");
    assert_eq!((e.status, e.message.as_str()), (409, "Task is already in a terminal state"));
}
