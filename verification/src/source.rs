//! Classification of a source format for editing, and the conversion profile
//! recommended for it.

use vstd::prelude::*;
use crate::text::{lowercase, opt_view, owned, str_eq, to_lowercase};

verus! {

/// The codecs and container of the format a download would start from.
pub struct SourceSummary {
    pub vcodec: Option<String>,
    pub acodec: Option<String>,
    pub container: Option<String>,
    pub has_audio: bool,
}

/// The mathematical content of a [`SourceSummary`].
pub struct SummaryView {
    pub vcodec: Option<Seq<char>>,
    pub acodec: Option<Seq<char>>,
    pub container: Option<Seq<char>>,
    pub has_audio: bool,
}

impl View for SourceSummary {
    type V = SummaryView;

    open spec fn view(&self) -> SummaryView {
        SummaryView {
            vcodec: opt_view(self.vcodec),
            acodec: opt_view(self.acodec),
            container: opt_view(self.container),
            has_audio: self.has_audio,
        }
    }
}

/// An optional field's text, `none` when absent.
pub open spec fn or_none(o: Option<Seq<char>>) -> Seq<char> {
    match o {
        Some(s) => s,
        None => "none"@,
    }
}

/// Video codecs that editing software handles well.
pub open spec fn is_friendly_video(v: Seq<char>) -> bool {
    v == "h264"@ || v == "avc1"@ || v == "mpeg4"@ || v == "prores"@
}

/// Audio codecs that editing software handles well.
pub open spec fn is_friendly_audio(a: Seq<char>) -> bool {
    a == "aac"@ || a == "mp3"@ || a == "pcm_s16le"@ || a == "pcm_f32le"@
}

/// Video codecs that are awkward to edit.
pub open spec fn is_unfriendly_video(v: Seq<char>) -> bool {
    v == "vp9"@ || v == "av1"@ || v == "hevc"@ || v == "h265"@
}

/// Audio codecs that are awkward to edit.
pub open spec fn is_unfriendly_audio(a: Seq<char>) -> bool {
    a == "opus"@ || a == "vorbis"@
}

/// The classification of a source from its lowercased video codec, audio
/// codec and container: a `mov` container or a friendly pair of codecs is
/// `friendly`; otherwise an awkward codec or a `webm` container is
/// `unfriendly`; anything else is `unknown`.
pub open spec fn classification(video: Seq<char>, audio: Seq<char>, container: Seq<char>) -> Seq<
    char,
> {
    if container == "mov"@ || (is_friendly_video(video) && is_friendly_audio(audio)) {
        "friendly"@
    } else if is_unfriendly_video(video) || is_unfriendly_audio(audio) || container == "webm"@ {
        "unfriendly"@
    } else {
        "unknown"@
    }
}

/// The classification of a source, each field lowercased first.
pub open spec fn source_classification(s: SummaryView) -> Seq<char> {
    classification(
        lowercase(or_none(s.vcodec)),
        lowercase(or_none(s.acodec)),
        lowercase(or_none(s.container)),
    )
}

/// Classifies a source from its lowercased video codec, audio codec and
/// container.
pub fn classify_codecs(video: &str, audio: &str, container: &str) -> (res: String)
    ensures
        res@ == classification(video@, audio@, container@),
{
    let friendly_video = str_eq(video, "h264") || str_eq(video, "avc1") || str_eq(video, "mpeg4")
        || str_eq(video, "prores");
    let friendly_audio = str_eq(audio, "aac") || str_eq(audio, "mp3") || str_eq(audio, "pcm_s16le")
        || str_eq(audio, "pcm_f32le");
    let unfriendly_video = str_eq(video, "vp9") || str_eq(video, "av1") || str_eq(video, "hevc")
        || str_eq(video, "h265");
    let unfriendly_audio = str_eq(audio, "opus") || str_eq(audio, "vorbis");
    if str_eq(container, "mov") || (friendly_video && friendly_audio) {
        owned("friendly")
    } else if unfriendly_video || unfriendly_audio || str_eq(container, "webm") {
        owned("unfriendly")
    } else {
        owned("unknown")
    }
}

/// The text of an optional field, `none` when absent.
fn text_or_none(o: &Option<String>) -> (res: &str)
    ensures
        res@ == or_none(opt_view(*o)),
{
    match o {
        Some(s) => s.as_str(),
        None => "none",
    }
}

/// Classifies a source for editing: `friendly`, `unfriendly` or `unknown`.
pub fn classify_source(summary: &SourceSummary) -> (res: String)
    ensures
        res@ == source_classification(summary@),
{
    let video = to_lowercase(text_or_none(&summary.vcodec));
    let audio = to_lowercase(text_or_none(&summary.acodec));
    let container = to_lowercase(text_or_none(&summary.container));
    classify_codecs(video.as_str(), audio.as_str(), container.as_str())
}

/// The recommended conversion profile from the lowercased video codec,
/// audio codec and container: a source with video gets a video profile
/// (`mov_prores` for a lossless source, a `mov` container or a ProRes
/// stream; `mp4_h264_aac` otherwise); a source without video gets an audio
/// profile (`wav` for lossless audio, a `wav` container or PCM samples;
/// `m4a_aac` otherwise).
pub open spec fn recommendation(video: Seq<char>, audio: Seq<char>, container: Seq<char>) -> Seq<
    char,
> {
    if video != "none"@ {
        if container == "mov"@ || video == "prores"@ {
            "mov_prores"@
        } else {
            "mp4_h264_aac"@
        }
    } else if container == "wav"@ || audio == "pcm_s16le"@ || audio == "pcm_f32le"@ {
        "wav"@
    } else {
        "m4a_aac"@
    }
}

/// The recommended conversion profile of a source, each field lowercased
/// first (an absent codec reads as `none`).
pub open spec fn source_recommendation(s: SummaryView) -> Seq<char> {
    recommendation(
        lowercase(or_none(s.vcodec)),
        lowercase(or_none(s.acodec)),
        lowercase(or_none(s.container)),
    )
}

/// The recommended conversion profile from the lowercased codecs and
/// container; there is always one.
pub fn recommend_profile(video: &str, audio: &str, container: &str) -> (res: Option<String>)
    ensures
        res matches Some(p) && p@ == recommendation(video@, audio@, container@),
{
    if !str_eq(video, "none") {
        if str_eq(container, "mov") || str_eq(video, "prores") {
            return Some(owned("mov_prores"));
        }
        return Some(owned("mp4_h264_aac"));
    }
    if str_eq(container, "wav") || str_eq(audio, "pcm_s16le") || str_eq(audio, "pcm_f32le") {
        return Some(owned("wav"));
    }
    Some(owned("m4a_aac"))
}

/// The conversion profile recommended for a source; there is always one.
pub fn recommended_conversion_profile(summary: &SourceSummary) -> (res: Option<String>)
    ensures
        res matches Some(p) && p@ == source_recommendation(summary@),
{
    let container = to_lowercase(text_or_none(&summary.container));
    let video = to_lowercase(text_or_none(&summary.vcodec));
    let audio = to_lowercase(text_or_none(&summary.acodec));
    recommend_profile(video.as_str(), audio.as_str(), container.as_str())
}

/// The output mode recommended for a classification: `converted` for an
/// unfriendly source, `natural` otherwise.
pub open spec fn recommended_mode(classification: Seq<char>) -> Seq<char> {
    if classification == "unfriendly"@ {
        "converted"@
    } else {
        "natural"@
    }
}

/// The output mode recommended for a classification.
pub fn recommended_output_mode(classification: &str) -> (res: String)
    ensures
        res@ == recommended_mode(classification@),
{
    if str_eq(classification, "unfriendly") {
        owned("converted")
    } else {
        owned("natural")
    }
}

} // verus!
