//! Which downloader and converter executables to run.

use vstd::prelude::*;
use crate::text::{owned, trim, trim_seq};
use crate::conversion::{path_join, path_joined};

verus! {

/// The local downloader installations looked for, in order.
pub open spec fn ytdlp_candidate_paths() -> Seq<Seq<char>> {
    seq![".venv/Scripts/yt-dlp.exe"@, "../.venv/Scripts/yt-dlp.exe"@]
}

/// The local downloader installations looked for, in order.
pub fn ytdlp_candidates() -> (res: Vec<String>)
    ensures
        crate::text::views(res@) == ytdlp_candidate_paths(),
{
    let mut v: Vec<String> = Vec::new();
    v.push(owned(".venv/Scripts/yt-dlp.exe"));
    v.push(owned("../.venv/Scripts/yt-dlp.exe"));
    assert(crate::text::views(v@) =~= ytdlp_candidate_paths());
    v
}

/// The first of the candidates from `from` on that exists, if any.
pub open spec fn first_existing(exists: Seq<bool>, from: int) -> Option<int>
    decreases 2 - from,
{
    if from >= 2 {
        None
    } else if from < exists.len() && exists[from] {
        Some(from)
    } else {
        first_existing(exists, from + 1)
    }
}

/// The downloader to run: the `YTDLP_PATH` setting when it is not blank,
/// else the first local installation that exists, else `yt-dlp`.
pub open spec fn ytdlp_choice(env_value: Option<Seq<char>>, exists: Seq<bool>) -> Seq<char> {
    match env_value {
        Some(v) if trim_seq(v).len() > 0 => v,
        _ => match first_existing(exists, 0) {
            Some(i) => ytdlp_candidate_paths()[i],
            None => "yt-dlp"@,
        },
    }
}

/// Chooses the downloader to run, given the `YTDLP_PATH` setting and whether
/// each local installation of [`ytdlp_candidates`] exists.
pub fn choose_ytdlp_executable(env_value: Option<String>, exists: &Vec<bool>) -> (res: String)
    ensures
        res@ == ytdlp_choice(crate::text::opt_view(env_value), exists@),
{
    proof {
        reveal_with_fuel(first_existing, 3);
    }
    if let Some(v) = &env_value {
        let t = trim(v.as_str());
        if t.unicode_len() > 0 {
            return v.clone();
        }
    }
    if exists.len() > 0 && exists[0] {
        return owned(".venv/Scripts/yt-dlp.exe");
    }
    if exists.len() > 1 && exists[1] {
        return owned("../.venv/Scripts/yt-dlp.exe");
    }
    owned("yt-dlp")
}

/// The `FFMPEG_PATH` setting, trimmed, when it is not blank.
pub open spec fn ffmpeg_setting(env_value: Seq<char>) -> Option<Seq<char>> {
    if trim_seq(env_value).len() > 0 {
        Some(trim_seq(env_value))
    } else {
        None
    }
}

/// The `FFMPEG_PATH` setting, trimmed, when it is not blank.
pub fn ffmpeg_override(env_value: &str) -> (res: Option<String>)
    ensures
        crate::text::opt_view(res) == ffmpeg_setting(env_value@),
{
    let t = trim(env_value);
    if t.unicode_len() > 0 {
        Some(t)
    } else {
        None
    }
}

/// The converter installed by the Windows package manager under
/// `local_app_data`.
pub open spec fn winget_path(local_app_data: Seq<char>) -> Seq<char> {
    path_joined(
        path_joined(
            path_joined(
                path_joined(
                    path_joined(
                        path_joined(path_joined(local_app_data, "Microsoft"@), "WinGet"@),
                        "Packages"@,
                    ),
                    "Gyan.FFmpeg_Microsoft.Winget.Source_8wekyb3d8bbwe"@,
                ),
                "ffmpeg-8.1-full_build"@,
            ),
            "bin"@,
        ),
        "ffmpeg.exe"@,
    )
}

/// The converter installed by the Windows package manager under
/// `local_app_data`.
pub fn winget_ffmpeg_candidate(local_app_data: &str) -> (res: String)
    ensures
        res@ == winget_path(local_app_data@),
{
    let a = path_join(local_app_data, "Microsoft");
    let b = path_join(a.as_str(), "WinGet");
    let c = path_join(b.as_str(), "Packages");
    let d = path_join(c.as_str(), "Gyan.FFmpeg_Microsoft.Winget.Source_8wekyb3d8bbwe");
    let e = path_join(d.as_str(), "ffmpeg-8.1-full_build");
    let f = path_join(e.as_str(), "bin");
    path_join(f.as_str(), "ffmpeg.exe")
}

/// The converter to run: the `FFMPEG_PATH` setting (the `ffmpeg.exe` in it
/// when it is a directory); else the package manager's installation when it
/// exists; else `ffmpeg`.
pub open spec fn ffmpeg_choice(
    setting: Option<Seq<char>>,
    setting_is_dir: bool,
    winget: Option<Seq<char>>,
) -> Seq<char> {
    match setting {
        Some(s) => if setting_is_dir {
            path_joined(s, "ffmpeg.exe"@)
        } else {
            s
        },
        None => match winget {
            Some(w) => w,
            None => "ffmpeg"@,
        },
    }
}

/// Chooses the converter to run, given the trimmed `FFMPEG_PATH` setting
/// (see [`ffmpeg_override`]), whether it is a directory, and the package
/// manager's installation when it exists.
pub fn choose_ffmpeg_executable(
    setting: Option<String>,
    setting_is_dir: bool,
    winget_existing: Option<String>,
) -> (res: String)
    ensures
        res@ == ffmpeg_choice(
            crate::text::opt_view(setting),
            setting_is_dir,
            crate::text::opt_view(winget_existing),
        ),
{
    match setting {
        Some(s) => if setting_is_dir {
            path_join(s.as_str(), "ffmpeg.exe")
        } else {
            s
        },
        None => match winget_existing {
            Some(w) => w,
            None => owned("ffmpeg"),
        },
    }
}

} // verus!
