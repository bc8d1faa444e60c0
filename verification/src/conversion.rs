//! Conversion of a downloaded file into an editing-friendly format with ffmpeg.

use vstd::prelude::*;
use crate::text::{cat, owned, str_eq, views};

verus! {

/// The file extension that a conversion profile produces; `mp4` for a
/// profile it does not know.
pub open spec fn target_extension(profile: Seq<char>) -> Seq<char> {
    if profile == "mp4_h264_aac"@ {
        "mp4"@
    } else if profile == "mov_prores"@ {
        "mov"@
    } else if profile == "m4a_aac"@ {
        "m4a"@
    } else if profile == "wav"@ {
        "wav"@
    } else {
        "mp4"@
    }
}

/// The file extension that the conversion profile `profile` produces.
pub fn conversion_target_extension(profile: &str) -> (res: &'static str)
    ensures
        res@ == target_extension(profile@),
{
    if str_eq(profile, "mp4_h264_aac") {
        "mp4"
    } else if str_eq(profile, "mov_prores") {
        "mov"
    } else if str_eq(profile, "m4a_aac") {
        "m4a"
    } else if str_eq(profile, "wav") {
        "wav"
    } else {
        "mp4"
    }
}

/// Why no ffmpeg command exists for a conversion.
pub enum ConversionError {
    /// The profile is none of `mp4_h264_aac`, `mov_prores`, `m4a_aac`, `wav`.
    UnsupportedProfile(String),
}

impl ConversionError {
    /// The text reported for this error.
    pub fn message(&self) -> (res: String)
        ensures
            match self {
                ConversionError::UnsupportedProfile(p) => res@ == "Unsupported conversion profile: "@
                    + p@,
            },
    {
        match self {
            ConversionError::UnsupportedProfile(p) => cat("Unsupported conversion profile: ", p.as_str()),
        }
    }
}

/// The ffmpeg command line of a known profile, converting `input` into
/// `output`; `None` for an unknown profile.
pub open spec fn ffmpeg_args(profile: Seq<char>, input: Seq<char>, output: Seq<char>) -> Option<
    Seq<Seq<char>>,
> {
    if profile == "mp4_h264_aac"@ {
        Some(
            seq![
                "-y"@,
                "-i"@,
                input,
                "-c:v"@,
                "libx264"@,
                "-preset"@,
                "medium"@,
                "-crf"@,
                "20"@,
                "-c:a"@,
                "aac"@,
                "-movflags"@,
                "+faststart"@,
                output,
            ],
        )
    } else if profile == "mov_prores"@ {
        Some(
            seq![
                "-y"@,
                "-i"@,
                input,
                "-c:v"@,
                "prores_ks"@,
                "-profile:v"@,
                "3"@,
                "-c:a"@,
                "pcm_s16le"@,
                output,
            ],
        )
    } else if profile == "m4a_aac"@ {
        Some(
            seq!["-y"@, "-i"@, input, "-vn"@, "-c:a"@, "aac"@, "-b:a"@, "192k"@, output],
        )
    } else if profile == "wav"@ {
        Some(seq!["-y"@, "-i"@, input, "-vn"@, "-c:a"@, "pcm_s16le"@, output])
    } else {
        None
    }
}

/// The ffmpeg command line that converts `input_path` into `output_path`
/// with `profile`; an error for an unknown profile.
pub fn build_ffmpeg_conversion_args(profile: &str, input_path: &str, output_path: &str) -> (res:
    Result<Vec<String>, ConversionError>)
    ensures
        match res {
            Ok(args) => ffmpeg_args(profile@, input_path@, output_path@) == Some(views(args@)),
            Err(ConversionError::UnsupportedProfile(p)) => ffmpeg_args(
                profile@,
                input_path@,
                output_path@,
            ) is None && p@ == profile@,
        },
{
    let mut args: Vec<String> = Vec::new();
    args.push(owned("-y"));
    args.push(owned("-i"));
    args.push(owned(input_path));
    if str_eq(profile, "mp4_h264_aac") {
        args.push(owned("-c:v"));
        args.push(owned("libx264"));
        args.push(owned("-preset"));
        args.push(owned("medium"));
        args.push(owned("-crf"));
        args.push(owned("20"));
        args.push(owned("-c:a"));
        args.push(owned("aac"));
        args.push(owned("-movflags"));
        args.push(owned("+faststart"));
    } else if str_eq(profile, "mov_prores") {
        args.push(owned("-c:v"));
        args.push(owned("prores_ks"));
        args.push(owned("-profile:v"));
        args.push(owned("3"));
        args.push(owned("-c:a"));
        args.push(owned("pcm_s16le"));
    } else if str_eq(profile, "m4a_aac") {
        args.push(owned("-vn"));
        args.push(owned("-c:a"));
        args.push(owned("aac"));
        args.push(owned("-b:a"));
        args.push(owned("192k"));
    } else if str_eq(profile, "wav") {
        args.push(owned("-vn"));
        args.push(owned("-c:a"));
        args.push(owned("pcm_s16le"));
    } else {
        return Err(ConversionError::UnsupportedProfile(owned(profile)));
    }
    args.push(owned(output_path));
    assert(Some(views(args@)) =~= ffmpeg_args(profile@, input_path@, output_path@));
    Ok(args)
}

/// The file name of the converted copy of a file whose stem is `stem`.
pub open spec fn converted_name(stem: Seq<char>, profile: Seq<char>) -> Seq<char> {
    stem + "_converted."@ + target_extension(profile)
}

/// The directory and file name of the converted copy, given the parent
/// directory and stem of the source path: the parent defaults to `.` and the
/// stem to `output`.
pub open spec fn converted_location(
    parent: Option<Seq<char>>,
    stem: Option<Seq<char>>,
    profile: Seq<char>,
) -> (Seq<char>, Seq<char>) {
    (
        match parent {
            Some(p) => p,
            None => "."@,
        },
        converted_name(
            match stem {
                Some(s) => s,
                None => "output"@,
            },
            profile,
        ),
    )
}

/// The directory and file name of the converted copy of a source file whose
/// parent directory and file stem are given.
pub fn conversion_location(parent: Option<String>, stem: Option<String>, profile: &str) -> (res: (
    String,
    String,
))
    ensures
        (res.0@, res.1@) == converted_location(
            match parent {
                Some(p) => Some(p@),
                None => None,
            },
            match stem {
                Some(s) => Some(s@),
                None => None,
            },
            profile@,
        ),
{
    let dir = match parent {
        Some(p) => p,
        None => owned("."),
    };
    let mut name = match stem {
        Some(s) => s,
        None => owned("output"),
    };
    name.append("_converted.");
    name.append(conversion_target_extension(profile));
    (dir, name)
}

/// What `Path::parent` gives for a path: the path without its last
/// component, if it has one.
pub uninterp spec fn path_parent_of(path: Seq<char>) -> Option<Seq<char>>;

/// What `Path::file_stem` gives for a path: its file name without the final
/// extension, if it has a file name.
pub uninterp spec fn path_stem_of(path: Seq<char>) -> Option<Seq<char>>;

/// What `Path::join` gives for a directory and a relative name.
pub uninterp spec fn path_joined(dir: Seq<char>, name: Seq<char>) -> Seq<char>;

/// Calls `Path::parent`. Trusted to return the parent named
/// `path_parent_of`; nothing more is claimed of it.
#[verifier::external_body]
fn path_parent(path: &str) -> (res: Option<String>)
    ensures
        match res {
            Some(p) => path_parent_of(path@) == Some(p@),
            None => path_parent_of(path@) is None,
        },
{
    std::path::Path::new(path).parent().map(|p| p.to_string_lossy().into_owned())
}

/// Calls `Path::file_stem`. Trusted to return the stem named `path_stem_of`;
/// nothing more is claimed of it.
#[verifier::external_body]
fn path_file_stem(path: &str) -> (res: Option<String>)
    ensures
        match res {
            Some(s) => path_stem_of(path@) == Some(s@),
            None => path_stem_of(path@) is None,
        },
{
    std::path::Path::new(path).file_stem().and_then(|s| s.to_str()).map(|s| s.to_string())
}

/// Calls `Path::join`. Trusted to return the joined path named
/// `path_joined`; nothing more is claimed of it.
#[verifier::external_body]
pub(crate) fn path_join(dir: &str, name: &str) -> (res: String)
    ensures
        res@ == path_joined(dir@, name@),
{
    std::path::Path::new(dir).join(name).to_string_lossy().into_owned()
}

/// The path of the converted copy of `input_path`: beside the source, named
/// after its stem with `_converted` and the profile's extension.
pub open spec fn converted_path(input_path: Seq<char>, profile: Seq<char>) -> Seq<char> {
    let loc = converted_location(path_parent_of(input_path), path_stem_of(input_path), profile);
    path_joined(loc.0, loc.1)
}

/// The path of the converted copy of `input_path` for `profile`.
pub fn conversion_output_path(input_path: &str, profile: &str) -> (res: String)
    ensures
        res@ == converted_path(input_path@, profile@),
{
    let parent = path_parent(input_path);
    let stem = path_file_stem(input_path);
    let (dir, name) = conversion_location(parent, stem, profile);
    path_join(dir.as_str(), name.as_str())
}

} // verus!
