//! Download requests and the plan of download passes they call for.

use vstd::prelude::*;
use crate::text::{
    cat, decimal, decimal_text, join, join_seq, lowercase, owned, str_eq, to_lowercase, trim, trim_seq,
    views,
};

verus! {

/// A download request, as the client posts it.
pub struct DownloadRequest {
    pub url: String,
    pub format_id: Option<String>,
    pub quality_height: Option<u64>,
    pub quality_has_audio: Option<bool>,
    pub subtitle_langs: Vec<String>,
    pub subtitle_format: Option<String>,
    pub output_dir: Option<String>,
    pub output_mode: Option<String>,
    pub conversion_profile: Option<String>,
    pub split_mode: Option<bool>,
    pub split_video: Option<bool>,
    pub split_audio: Option<bool>,
}

/// One run of the downloader: which streams it selects and how its output
/// file is named.
pub struct DownloadPass {
    pub label: &'static str,
    pub format_selector: String,
    pub output_suffix: Option<&'static str>,
}

/// The mathematical content of a [`DownloadPass`].
pub struct PassView {
    pub label: Seq<char>,
    pub format_selector: Seq<char>,
    pub output_suffix: Option<Seq<char>>,
}

impl View for DownloadPass {
    type V = PassView;

    open spec fn view(&self) -> PassView {
        PassView {
            label: self.label@,
            format_selector: self.format_selector@,
            output_suffix: match self.output_suffix {
                Some(s) => Some(s@),
                None => None,
            },
        }
    }
}

/// Why a request has no download plan.
pub enum PlanError {
    /// The output mode, trimmed and lowercased, is none of `natural`,
    /// `converted` and `both`.
    UnsupportedOutputMode(String),
    /// Split mode was asked for with neither the video nor the audio stream.
    NoSplitStream,
}

/// The mathematical content of a [`PlanError`].
pub enum PlanErrorView {
    UnsupportedOutputMode(Seq<char>),
    NoSplitStream,
}

impl View for PlanError {
    type V = PlanErrorView;

    open spec fn view(&self) -> PlanErrorView {
        match self {
            PlanError::UnsupportedOutputMode(m) => PlanErrorView::UnsupportedOutputMode(m@),
            PlanError::NoSplitStream => PlanErrorView::NoSplitStream,
        }
    }
}

/// The text reported to the client for a plan error.
pub open spec fn plan_error_message(e: PlanErrorView) -> Seq<char> {
    match e {
        PlanErrorView::UnsupportedOutputMode(m) => "Unsupported output mode: "@ + m,
        PlanErrorView::NoSplitStream => "Split mode requires at least one of video or audio"@,
    }
}

impl PlanError {
    /// The text reported to the client for this error.
    pub fn message(&self) -> (res: String)
        ensures
            res@ == plan_error_message(self@),
    {
        match self {
            PlanError::UnsupportedOutputMode(m) => cat("Unsupported output mode: ", m.as_str()),
            PlanError::NoSplitStream => owned("Split mode requires at least one of video or audio"),
        }
    }
}

/// The views of a sequence of passes.
pub open spec fn pass_views(v: Seq<DownloadPass>) -> Seq<PassView> {
    v.map_values(|p: DownloadPass| p@)
}

/// The output mode as requested, `natural` when the request names none.
pub open spec fn requested_mode(req: DownloadRequest) -> Seq<char> {
    match req.output_mode {
        Some(m) => m@,
        None => "natural"@,
    }
}

/// The output mode as the plan reads it: trimmed, then lowercased.
pub open spec fn normalized_mode(req: DownloadRequest) -> Seq<char> {
    lowercase(trim_seq(requested_mode(req)))
}

/// Whether `mode` is one of the three output modes.
pub open spec fn is_known_mode(mode: Seq<char>) -> bool {
    mode == "natural"@ || mode == "converted"@ || mode == "both"@
}

/// The stream selector of the video pass of a split download.
pub open spec fn split_video_selector(req: DownloadRequest) -> Seq<char> {
    if req.quality_has_audio == Some(false) {
        match req.format_id {
            Some(f) => f@,
            None => "bestvideo"@,
        }
    } else {
        match req.quality_height {
            Some(h) => "bestvideo[height<="@ + decimal(h as nat) + "]/bestvideo"@,
            None => "bestvideo"@,
        }
    }
}

/// The single pass of a merged (not split) download.
pub open spec fn merged_pass(req: DownloadRequest) -> PassView {
    PassView {
        label: "merged"@,
        format_selector: match req.format_id {
            Some(f) => f@,
            None => "bestvideo+bestaudio/best"@,
        },
        output_suffix: None,
    }
}

/// The video pass of a split download.
pub open spec fn video_pass(req: DownloadRequest) -> PassView {
    PassView {
        label: "video"@,
        format_selector: split_video_selector(req),
        output_suffix: Some("video"@),
    }
}

/// The audio pass of a split download.
pub open spec fn audio_pass() -> PassView {
    PassView { label: "audio"@, format_selector: "bestaudio/best"@, output_suffix: Some("audio"@) }
}

/// Whether the request asks for split downloads.
pub open spec fn wants_split(req: DownloadRequest) -> bool {
    req.split_mode.unwrap_or(false)
}

/// Whether a split download includes the video stream.
pub open spec fn wants_video(req: DownloadRequest) -> bool {
    req.split_video.unwrap_or(true)
}

/// Whether a split download includes the audio stream.
pub open spec fn wants_audio(req: DownloadRequest) -> bool {
    req.split_audio.unwrap_or(true)
}

/// The passes that produce the natural output of `req`.
pub open spec fn natural_plan(req: DownloadRequest) -> Result<Seq<PassView>, PlanErrorView> {
    if !wants_split(req) {
        Ok(seq![merged_pass(req)])
    } else if !wants_video(req) && !wants_audio(req) {
        Err(PlanErrorView::NoSplitStream)
    } else {
        Ok(
            (if wants_video(req) { seq![video_pass(req)] } else { Seq::empty() }) + (if wants_audio(
                req,
            ) {
                seq![audio_pass()]
            } else {
                Seq::empty()
            }),
        )
    }
}

/// The plan of `req`, given its normalized output mode.
pub open spec fn plan_for_mode(req: DownloadRequest, mode: Seq<char>) -> Result<
    Seq<PassView>,
    PlanErrorView,
> {
    if is_known_mode(mode) {
        natural_plan(req)
    } else {
        Err(PlanErrorView::UnsupportedOutputMode(mode))
    }
}

/// Whether an executable plan result matches a spec plan result.
pub open spec fn plan_matches(
    res: Result<Vec<DownloadPass>, PlanError>,
    spec: Result<Seq<PassView>, PlanErrorView>,
) -> bool {
    match res {
        Ok(v) => spec == Ok::<Seq<PassView>, PlanErrorView>(pass_views(v@)),
        Err(e) => spec == Err::<Seq<PassView>, PlanErrorView>(e@),
    }
}

/// The stream selector of the video pass of a split download: the chosen
/// format itself when it is video-only, else the best video no taller than
/// the chosen quality.
pub fn build_split_video_selector(req: &DownloadRequest) -> (res: String)
    ensures
        res@ == split_video_selector(*req),
{
    if req.quality_has_audio == Some(false) {
        return match &req.format_id {
            Some(f) => f.clone(),
            None => owned("bestvideo"),
        };
    }
    match req.quality_height {
        Some(height) => {
            let mut s = owned("bestvideo[height<=");
            s.append(decimal_text(height).as_str());
            s.append("]/bestvideo");
            s
        },
        None => owned("bestvideo"),
    }
}

/// The stream selector of the audio pass of a split download.
pub fn build_split_audio_selector() -> (res: String)
    ensures
        res@ == "bestaudio/best"@,
{
    owned("bestaudio/best")
}

/// The passes that produce the natural output of `req`: one merged pass, or
/// in split mode a video pass and/or an audio pass, in that order.
pub fn build_natural_download_passes(req: &DownloadRequest) -> (res: Result<
    Vec<DownloadPass>,
    PlanError,
>)
    ensures
        plan_matches(res, natural_plan(*req)),
{
    let split_mode = match req.split_mode {
        Some(b) => b,
        None => false,
    };
    if !split_mode {
        let selector = match &req.format_id {
            Some(f) => f.clone(),
            None => owned("bestvideo+bestaudio/best"),
        };
        let mut passes: Vec<DownloadPass> = Vec::new();
        passes.push(DownloadPass { label: "merged", format_selector: selector, output_suffix: None });
        assert(pass_views(passes@) =~= seq![merged_pass(*req)]);
        return Ok(passes);
    }
    let split_video = match req.split_video {
        Some(b) => b,
        None => true,
    };
    let split_audio = match req.split_audio {
        Some(b) => b,
        None => true,
    };
    if !split_video && !split_audio {
        return Err(PlanError::NoSplitStream);
    }
    let mut passes: Vec<DownloadPass> = Vec::new();
    if split_video {
        passes.push(
            DownloadPass {
                label: "video",
                format_selector: build_split_video_selector(req),
                output_suffix: Some("video"),
            },
        );
    }
    if split_audio {
        passes.push(
            DownloadPass {
                label: "audio",
                format_selector: build_split_audio_selector(),
                output_suffix: Some("audio"),
            },
        );
    }
    assert(pass_views(passes@) =~= (if split_video {
        seq![video_pass(*req)]
    } else {
        Seq::empty()
    }) + (if split_audio {
        seq![audio_pass()]
    } else {
        Seq::empty()
    }));
    Ok(passes)
}

/// The plan of `req` once its output mode has been normalized to `mode`:
/// every known mode downloads the natural output first; any other mode is
/// refused.
pub fn plan_download_passes(req: &DownloadRequest, mode: &str) -> (res: Result<
    Vec<DownloadPass>,
    PlanError,
>)
    ensures
        plan_matches(res, plan_for_mode(*req, mode@)),
{
    if str_eq(mode, "natural") || str_eq(mode, "converted") || str_eq(mode, "both") {
        build_natural_download_passes(req)
    } else {
        Err(PlanError::UnsupportedOutputMode(owned(mode)))
    }
}

/// The plan of `req`: its output mode (default `natural`) is trimmed and
/// lowercased, then [`plan_download_passes`] decides.
pub fn build_download_passes(req: &DownloadRequest) -> (res: Result<Vec<DownloadPass>, PlanError>)
    ensures
        plan_matches(res, plan_for_mode(*req, normalized_mode(*req))),
{
    let raw = match &req.output_mode {
        Some(m) => m.as_str(),
        None => "natural",
    };
    let trimmed = trim(raw);
    let mode = to_lowercase(trimmed.as_str());
    plan_download_passes(req, mode.as_str())
}

/// The output file name template: the title, an optional `_suffix`, then the
/// extension.
pub open spec fn output_template(suffix: Option<Seq<char>>) -> Seq<char> {
    match suffix {
        Some(s) => "%(title)s_"@ + s + ".%(ext)s"@,
        None => "%(title)s.%(ext)s"@,
    }
}

/// The downloader's output file name template for a pass with `suffix`.
pub fn build_output_template(suffix: Option<&str>) -> (res: String)
    ensures
        res@ == output_template(
            match suffix {
                Some(s) => Some(s@),
                None => None,
            },
        ),
{
    match suffix {
        Some(s) => {
            let mut t = owned("%(title)s_");
            t.append(s);
            t.append(".%(ext)s");
            t
        },
        None => owned("%(title)s.%(ext)s"),
    }
}

/// Whether the request's output mode, trimmed and lowercased as the plan
/// reads it, is `target`; a request that names no mode asks for `natural`.
pub open spec fn mode_is(req: DownloadRequest, target: Seq<char>) -> bool {
    match req.output_mode {
        Some(m) => lowercase(trim_seq(m@)) == target,
        None => target == "natural"@,
    }
}

/// Whether the output mode calls for a converted copy after each pass: it is
/// `converted` or `both`.
pub open spec fn explicit_conversion(req: DownloadRequest) -> bool {
    mode_is(req, "converted"@) || mode_is(req, "both"@)
}

/// Whether the request's output mode, trimmed and lowercased, is `target`.
fn mode_matches(req: &DownloadRequest, target: &str) -> (res: bool)
    ensures
        res == mode_is(*req, target@),
{
    match &req.output_mode {
        Some(m) => {
            let trimmed = trim(m.as_str());
            let lowered = to_lowercase(trimmed.as_str());
            str_eq(lowered.as_str(), target)
        },
        None => str_eq("natural", target),
    }
}

/// Whether a converted copy is made after each download pass.
pub fn should_run_explicit_conversion(req: &DownloadRequest) -> (res: bool)
    ensures
        res == explicit_conversion(*req),
{
    mode_matches(req, "converted") || mode_matches(req, "both")
}

/// The conversion profile used when the request names none.
pub fn default_conversion_profile(req: &DownloadRequest) -> (res: String)
    ensures
        res@ == "mp4_h264_aac"@,
{
    if req.quality_has_audio == Some(false) {
        return owned("mp4_h264_aac");
    }
    owned("mp4_h264_aac")
}

/// The conversion profile of a request: the one it names, else the default.
pub open spec fn chosen_profile(req: DownloadRequest) -> Seq<char> {
    match req.conversion_profile {
        Some(p) => p@,
        None => "mp4_h264_aac"@,
    }
}

/// The conversion profile of `req`: the one it names, else the default.
pub fn conversion_profile_for(req: &DownloadRequest) -> (res: String)
    ensures
        res@ == chosen_profile(*req),
{
    match &req.conversion_profile {
        Some(p) => p.clone(),
        None => default_conversion_profile(req),
    }
}

/// Whether the natural file is kept beside its converted copy: the output
/// mode is `both`.
pub open spec fn keeps_natural(req: DownloadRequest) -> bool {
    mode_is(req, "both"@)
}

/// Whether the natural file is kept beside its converted copy.
pub fn keeps_natural_output(req: &DownloadRequest) -> (res: bool)
    ensures
        res == keeps_natural(*req),
{
    mode_matches(req, "both")
}

/// The subtitle options of the downloader's command line.
pub open spec fn subtitle_args(req: DownloadRequest) -> Seq<Seq<char>> {
    if req.subtitle_langs@.len() == 0 {
        Seq::empty()
    } else {
        seq![
            "--write-subs"@,
            "--write-auto-subs"@,
            "--sub-langs"@,
            join_seq(views(req.subtitle_langs@), ","@),
        ] + match req.subtitle_format {
            Some(f) => seq!["--sub-format"@, f@],
            None => Seq::empty(),
        }
    }
}

/// The downloader's command line for one pass of `req`, writing into
/// `output_dir`.
pub open spec fn ytdlp_args(req: DownloadRequest, output_dir: Seq<char>, pass: PassView) -> Seq<
    Seq<char>,
> {
    seq![
        "--newline"@,
        "--no-playlist"@,
        "--print"@,
        "after_move:filepath"@,
        "-P"@,
        output_dir,
        "-o"@,
        output_template(pass.output_suffix),
        "-f"@,
        pass.format_selector,
    ] + subtitle_args(req) + seq![req.url@]
}

/// The downloader's command line for one pass of `req`.
pub fn build_ytdlp_args(req: &DownloadRequest, output_dir: &str, pass: &DownloadPass) -> (res: Vec<
    String,
>)
    ensures
        views(res@) == ytdlp_args(*req, output_dir@, pass@),
{
    let mut args: Vec<String> = Vec::new();
    args.push(owned("--newline"));
    args.push(owned("--no-playlist"));
    args.push(owned("--print"));
    args.push(owned("after_move:filepath"));
    args.push(owned("-P"));
    args.push(owned(output_dir));
    args.push(owned("-o"));
    args.push(build_output_template(pass.output_suffix));
    args.push(owned("-f"));
    args.push(pass.format_selector.clone());
    let ghost head = views(args@);
    if req.subtitle_langs.len() > 0 {
        args.push(owned("--write-subs"));
        args.push(owned("--write-auto-subs"));
        args.push(owned("--sub-langs"));
        args.push(join(&req.subtitle_langs, ","));
        match &req.subtitle_format {
            Some(f) => {
                args.push(owned("--sub-format"));
                args.push(f.clone());
            },
            None => {},
        }
    }
    assert(views(args@) =~= head + subtitle_args(*req));
    args.push(req.url.clone());
    assert(views(args@) =~= ytdlp_args(*req, output_dir@, pass@));
    args
}

} // verus!
