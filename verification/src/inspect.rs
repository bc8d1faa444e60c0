//! Shaping downloader metadata into the options offered to the client:
//! qualities, subtitles and the recommendation for the best quality.

use vstd::prelude::*;
use crate::text::{
    cat, decimal, decimal_text, opt_view, owned, str_eq, trim, trim_seq, views,
};
use crate::source::{
    classify_source, recommended_conversion_profile, recommended_mode, recommended_output_mode,
    source_classification, source_recommendation, SourceSummary, SummaryView,
};

verus! {

/// What the logic reads of one entry of the metadata's `formats` list. Each
/// field is `None` where the entry lacks it or holds a value of another type.
pub struct FormatEntry {
    pub format_id: Option<String>,
    pub vcodec: Option<String>,
    pub acodec: Option<String>,
    pub height: Option<u64>,
    /// The decimal text of the frame rate, present only when the entry
    /// reports a positive frame rate.
    pub fps_text: Option<String>,
    pub ext: Option<String>,
    pub filesize: Option<u64>,
    pub format_note: Option<String>,
}

/// One subtitle track of the metadata: its language and, when its entry is
/// a list, the `ext` of each item (`None` for an item without a text `ext`).
pub struct SubtitleTrack {
    pub language: String,
    pub entries: Option<Vec<Option<String>>>,
}

/// What the logic reads of the downloader's metadata document.
pub struct Metadata {
    pub title: Option<String>,
    pub webpage_url: Option<String>,
    /// The `formats` list, `None` when absent or not a list.
    pub formats: Option<Vec<FormatEntry>>,
    /// The `subtitles` object in its own order, `None` when absent or not an object.
    pub subtitles: Option<Vec<SubtitleTrack>>,
    /// The `automatic_captions` object in its own order, `None` when absent or not an object.
    pub automatic_captions: Option<Vec<SubtitleTrack>>,
}

/// A quality the client can choose.
pub struct QualityOption {
    pub format_id: String,
    pub download_selector: String,
    pub label: String,
    pub height: Option<u64>,
    pub ext: Option<String>,
    pub filesize: Option<u64>,
    pub has_audio: bool,
    pub vcodec: Option<String>,
    pub acodec: Option<String>,
    pub container: Option<String>,
    /// The position of the format entry this quality was made from.
    pub source_index: usize,
}

/// The mathematical content of a [`QualityOption`].
pub struct QualityView {
    pub format_id: Seq<char>,
    pub download_selector: Seq<char>,
    pub label: Seq<char>,
    pub height: Option<u64>,
    pub ext: Option<Seq<char>>,
    pub filesize: Option<u64>,
    pub has_audio: bool,
    pub vcodec: Option<Seq<char>>,
    pub acodec: Option<Seq<char>>,
    pub container: Option<Seq<char>>,
    pub source_index: int,
}

impl View for QualityOption {
    type V = QualityView;

    open spec fn view(&self) -> QualityView {
        QualityView {
            format_id: self.format_id@,
            download_selector: self.download_selector@,
            label: self.label@,
            height: self.height,
            ext: opt_view(self.ext),
            filesize: self.filesize,
            has_audio: self.has_audio,
            vcodec: opt_view(self.vcodec),
            acodec: opt_view(self.acodec),
            container: opt_view(self.container),
            source_index: self.source_index as int,
        }
    }
}

/// A subtitle option the client can choose.
pub struct SubtitleOption {
    pub language: String,
    pub kind: String,
    pub formats: Vec<String>,
}

/// The mathematical content of a [`SubtitleOption`].
pub struct SubtitleView {
    pub language: Seq<char>,
    pub kind: Seq<char>,
    pub formats: Seq<Seq<char>>,
}

impl View for SubtitleOption {
    type V = SubtitleView;

    open spec fn view(&self) -> SubtitleView {
        SubtitleView { language: self.language@, kind: self.kind@, formats: views(self.formats@) }
    }
}

/// The views of a sequence of qualities.
pub open spec fn quality_views(v: Seq<QualityOption>) -> Seq<QualityView> {
    v.map_values(|q: QualityOption| q@)
}

/// The views of a sequence of subtitle options.
pub open spec fn subtitle_views(v: Seq<SubtitleOption>) -> Seq<SubtitleView> {
    v.map_values(|s: SubtitleOption| s@)
}

// ---------------------------------------------------------------------------
// Qualities
// ---------------------------------------------------------------------------

/// Whether an entry carries audio: its audio codec is present and not `none`.
pub open spec fn entry_has_audio(e: FormatEntry) -> bool {
    match e.acodec {
        Some(a) => a@ != "none"@,
        None => false,
    }
}

/// Whether an entry declares that it has no video stream: its video codec
/// is `none`.
pub open spec fn entry_lacks_video(e: FormatEntry) -> bool {
    match e.vcodec {
        Some(v) => v@ == "none"@,
        None => false,
    }
}

/// The selector that downloads a format: the format itself when it carries
/// audio, else the format merged with the best audio.
pub open spec fn selector_for(id: Seq<char>, has_audio: bool) -> Seq<char> {
    if has_audio {
        id
    } else {
        id + "+bestaudio/best"@
    }
}

/// The label of a quality before trimming:
/// `{height}p {fps} {note} ({id}){suffix}`.
pub open spec fn raw_label(e: FormatEntry, id: Seq<char>, has_audio: bool) -> Seq<char> {
    (match e.height {
        Some(h) => decimal(h as nat),
        None => "?"@,
    }) + "p "@ + (match e.fps_text {
        Some(f) => f@ + "fps"@,
        None => Seq::empty(),
    }) + " "@ + (match e.format_note {
        Some(n) => n@,
        None => Seq::empty(),
    }) + " ("@ + id + ")"@ + (if has_audio {
        Seq::empty()
    } else {
        " + bestaudio"@
    })
}

/// The quality offered for the format entry at `index`, if any: entries
/// without an id, and entries with neither video nor audio, offer none;
/// audio-only entries are offered.
pub open spec fn quality_of(e: FormatEntry, index: int) -> Option<QualityView> {
    if entry_lacks_video(e) && !entry_has_audio(e) {
        None
    } else {
        match e.format_id {
            None => None,
            Some(id) => Some(
                QualityView {
                    format_id: id@,
                    download_selector: selector_for(id@, entry_has_audio(e)),
                    label: trim_seq(raw_label(e, id@, entry_has_audio(e))),
                    height: e.height,
                    ext: opt_view(e.ext),
                    filesize: e.filesize,
                    has_audio: entry_has_audio(e),
                    vcodec: opt_view(e.vcodec),
                    acodec: opt_view(e.acodec),
                    container: opt_view(e.ext),
                    source_index: index,
                },
            ),
        }
    }
}

/// The qualities offered by a list of format entries, in list order.
pub open spec fn qualities_from(entries: Seq<FormatEntry>) -> Seq<QualityView>
    decreases entries.len(),
{
    if entries.len() == 0 {
        Seq::empty()
    } else {
        let prev = qualities_from(entries.drop_last());
        match quality_of(entries.last(), entries.len() - 1) {
            Some(q) => prev.push(q),
            None => prev,
        }
    }
}

/// The qualities offered by a metadata document, in list order.
pub open spec fn metadata_qualities(m: Metadata) -> Seq<QualityView> {
    match m.formats {
        Some(f) => qualities_from(f@),
        None => Seq::empty(),
    }
}

/// The quality offered for one format entry.
fn quality_from_entry(e: &FormatEntry, index: usize) -> (res: Option<QualityOption>)
    ensures
        match res {
            Some(q) => quality_of(*e, index as int) == Some(q@),
            None => quality_of(*e, index as int) is None,
        },
{
    let has_audio = match &e.acodec {
        Some(a) => !str_eq(a.as_str(), "none"),
        None => false,
    };
    if let Some(v) = &e.vcodec {
        if str_eq(v.as_str(), "none") && !has_audio {
            return None;
        }
    }
    let format_id = match &e.format_id {
        Some(v) => v.clone(),
        None => return None,
    };
    let download_selector = if has_audio {
        format_id.clone()
    } else {
        cat(format_id.as_str(), "+bestaudio/best")
    };
    let mut raw = match e.height {
        Some(h) => decimal_text(h),
        None => owned("?"),
    };
    raw.append("p ");
    match &e.fps_text {
        Some(f) => {
            raw.append(f.as_str());
            raw.append("fps");
        },
        None => {},
    }
    raw.append(" ");
    match &e.format_note {
        Some(n) => raw.append(n.as_str()),
        None => {},
    }
    raw.append(" (");
    raw.append(format_id.as_str());
    raw.append(")");
    if !has_audio {
        raw.append(" + bestaudio");
    }
    proof {
        assert(raw@ =~= raw_label(*e, format_id@, has_audio));
    }
    let label = trim(raw.as_str());
    Some(
        QualityOption {
            format_id,
            download_selector,
            label,
            height: e.height,
            ext: e.ext.clone(),
            filesize: e.filesize,
            has_audio,
            vcodec: e.vcodec.clone(),
            acodec: e.acodec.clone(),
            container: e.ext.clone(),
            source_index: index,
        },
    )
}

/// The qualities that the metadata's formats offer, in list order: every
/// format with an id that has video or audio.
pub fn extract_qualities(metadata: &Metadata) -> (res: Vec<QualityOption>)
    ensures
        quality_views(res@) == metadata_qualities(*metadata),
{
    let mut qualities: Vec<QualityOption> = Vec::new();
    match &metadata.formats {
        None => {
            assert(quality_views(qualities@) =~= Seq::<QualityView>::empty());
        },
        Some(formats) => {
            let n = formats.len();
            let mut i: usize = 0;
            assert(quality_views(qualities@) =~= qualities_from(formats@.subrange(0, 0)));
            while i < n
                invariant
                    n == formats.len(),
                    i <= n,
                    quality_views(qualities@) == qualities_from(formats@.subrange(0, i as int)),
                decreases n - i,
            {
                let ghost before = formats@.subrange(0, i as int);
                let ghost after = formats@.subrange(0, i + 1);
                assert(after.drop_last() =~= before);
                let q = quality_from_entry(&formats[i], i);
                match q {
                    Some(q) => {
                        qualities.push(q);
                    },
                    None => {},
                }
                assert(quality_views(qualities@) =~= qualities_from(after));
                i = i + 1;
            }
            assert(formats@.subrange(0, n as int) =~= formats@);
        },
    }
    qualities
}

// ---------------------------------------------------------------------------
// Ranking
// ---------------------------------------------------------------------------

/// The order of `Option<u64>`: `None` below every `Some`.
pub open spec fn opt_lt(a: Option<u64>, b: Option<u64>) -> bool {
    match (a, b) {
        (None, Some(_)) => true,
        (Some(x), Some(y)) => x < y,
        _ => false,
    }
}

/// `a` is listed before `b`: it is taller, or as tall and larger.
pub open spec fn ranks_above(a: QualityView, b: QualityView) -> bool {
    opt_lt(b.height, a.height) || (b.height == a.height && opt_lt(b.filesize, a.filesize))
}

/// `s` lists no quality after one that ranks below it.
pub open spec fn is_ranked(s: Seq<QualityView>) -> bool {
    forall|i: int, j: int| 0 <= i < j < s.len() ==> !ranks_above(#[trigger] s[j], #[trigger] s[i])
}

/// The qualities of `s` of height `h` and file size `fs`, in their order in `s`.
pub open spec fn of_rank(s: Seq<QualityView>, h: Option<u64>, fs: Option<u64>) -> Seq<QualityView>
    decreases s.len(),
{
    if s.len() == 0 {
        Seq::empty()
    } else if s.last().height == h && s.last().filesize == fs {
        of_rank(s.drop_last(), h, fs).push(s.last())
    } else {
        of_rank(s.drop_last(), h, fs)
    }
}

/// `out` is the stable ranking of `input`: it is ranked, and the qualities of
/// each rank appear in it exactly as, and in the order, they appear in `input`.
pub open spec fn is_stable_ranking(input: Seq<QualityView>, out: Seq<QualityView>) -> bool {
    &&& is_ranked(out)
    &&& forall|h: Option<u64>, fs: Option<u64>| #[trigger]
        of_rank(out, h, fs) == of_rank(input, h, fs)
}

proof fn lemma_of_rank_add(a: Seq<QualityView>, b: Seq<QualityView>, h: Option<u64>, fs: Option<u64>)
    ensures
        of_rank(a + b, h, fs) == of_rank(a, h, fs) + of_rank(b, h, fs),
    decreases b.len(),
{
    if b.len() == 0 {
        assert(a + b =~= a);
        assert(of_rank(b, h, fs) =~= Seq::<QualityView>::empty());
        assert(of_rank(a, h, fs) + of_rank(b, h, fs) =~= of_rank(a, h, fs));
    } else {
        lemma_of_rank_add(a, b.drop_last(), h, fs);
        assert((a + b).drop_last() =~= a + b.drop_last());
        assert((a + b).last() == b.last());
        if b.last().height == h && b.last().filesize == fs {
            assert(of_rank(a, h, fs) + of_rank(b, h, fs) =~= (of_rank(a, h, fs) + of_rank(
                b.drop_last(),
                h,
                fs,
            )).push(b.last()));
        }
    }
}

proof fn lemma_of_rank_none(s: Seq<QualityView>, h: Option<u64>, fs: Option<u64>)
    requires
        forall|i: int| 0 <= i < s.len() ==> !(#[trigger] s[i].height == h && s[i].filesize == fs),
    ensures
        of_rank(s, h, fs) == Seq::<QualityView>::empty(),
    decreases s.len(),
{
    if s.len() > 0 {
        let t = s.drop_last();
        assert forall|i: int| 0 <= i < t.len() implies !(#[trigger] t[i].height == h
            && t[i].filesize == fs) by {
            assert(t[i] == s[i]);
        }
        lemma_of_rank_none(t, h, fs);
        assert(!(s[s.len() - 1].height == h && s[s.len() - 1].filesize == fs));
    }
}

proof fn lemma_of_rank_single(q: QualityView, h: Option<u64>, fs: Option<u64>)
    ensures
        of_rank(seq![q], h, fs) == (if q.height == h && q.filesize == fs {
            seq![q]
        } else {
            Seq::<QualityView>::empty()
        }),
{
    reveal_with_fuel(of_rank, 2);
    assert(seq![q].drop_last() =~= Seq::<QualityView>::empty());
    assert(seq![q].last() == q);
    assert(Seq::<QualityView>::empty().push(q) =~= seq![q]);
}

/// Inserting `q` into the ranked `r` at `p`, the first position whose quality
/// ranks below `q`, keeps `r` ranked and adds `q` behind its equals.
proof fn lemma_insert_ranked(r: Seq<QualityView>, q: QualityView, p: int)
    requires
        is_ranked(r),
        0 <= p <= r.len(),
        forall|i: int| 0 <= i < p ==> !ranks_above(q, #[trigger] r[i]),
        p < r.len() ==> ranks_above(q, r[p]),
    ensures
        is_ranked(r.insert(p, q)),
        forall|h: Option<u64>, fs: Option<u64>| #[trigger]
            of_rank(r.insert(p, q), h, fs) == of_rank(r, h, fs) + of_rank(seq![q], h, fs),
{
    let out = r.insert(p, q);
    assert(out =~= r.subrange(0, p) + seq![q] + r.subrange(p, r.len() as int));
    assert(r =~= r.subrange(0, p) + r.subrange(p, r.len() as int));
    let right = r.subrange(p, r.len() as int);
    assert forall|k: int| 0 <= k < right.len() implies ranks_above(q, #[trigger] right[k]) by {
        assert(right[k] == r[p + k]);
        if k > 0 {
            assert(!ranks_above(r[p + k], r[p]));
        }
    }
    assert forall|i: int, j: int| 0 <= i < j < out.len() implies !ranks_above(
        #[trigger] out[j],
        #[trigger] out[i],
    ) by {
        if j < p {
            assert(out[i] == r[i] && out[j] == r[j]);
        } else if j == p {
            assert(out[i] == r[i] && out[j] == q);
        } else if i == p {
            assert(out[i] == q && out[j] == r[j - 1]);
            assert(ranks_above(q, right[j - 1 - p]));
        } else if i < p {
            assert(out[i] == r[i] && out[j] == r[j - 1]);
        } else {
            assert(out[i] == r[i - 1] && out[j] == r[j - 1]);
        }
    }
    assert forall|h: Option<u64>, fs: Option<u64>| #[trigger]
        of_rank(out, h, fs) == of_rank(r, h, fs) + of_rank(seq![q], h, fs) by {
        let left = r.subrange(0, p);
        lemma_of_rank_add(left + seq![q], right, h, fs);
        lemma_of_rank_add(left, seq![q], h, fs);
        lemma_of_rank_add(left, right, h, fs);
        lemma_of_rank_single(q, h, fs);
        if q.height == h && q.filesize == fs {
            assert forall|k: int| 0 <= k < right.len() implies !(#[trigger] right[k].height == h
                && right[k].filesize == fs) by {
                assert(ranks_above(q, right[k]));
            }
            lemma_of_rank_none(right, h, fs);
            assert(of_rank(out, h, fs) =~= of_rank(left, h, fs) + seq![q]);
            assert(of_rank(r, h, fs) =~= of_rank(left, h, fs));
        } else {
            assert(of_rank(out, h, fs) =~= of_rank(left, h, fs) + of_rank(right, h, fs));
        }
    }
}

/// Whether `a` is listed before `b`.
fn ranks_above_exec(a: &QualityOption, b: &QualityOption) -> (res: bool)
    ensures
        res == ranks_above(a@, b@),
{
    let taller = match (b.height, a.height) {
        (None, Some(_)) => true,
        (Some(x), Some(y)) => x < y,
        _ => false,
    };
    let larger = match (b.filesize, a.filesize) {
        (None, Some(_)) => true,
        (Some(x), Some(y)) => x < y,
        _ => false,
    };
    taller || (b.height == a.height && larger)
}

/// Orders the qualities tallest first, then largest first, keeping the
/// original order among qualities of equal height and size.
pub fn rank_qualities(qualities: &mut Vec<QualityOption>)
    ensures
        is_stable_ranking(quality_views(old(qualities)@), quality_views(final(qualities)@)),
{
    let ghost input = quality_views(qualities@);
    let mut ranked: Vec<QualityOption> = Vec::new();
    let ghost mut taken: int = 0;
    assert(input.subrange(0, 0) =~= Seq::<QualityView>::empty());
    proof {
        assert forall|h: Option<u64>, fs: Option<u64>| #[trigger]
            of_rank(quality_views(ranked@), h, fs) == of_rank(input.subrange(0, 0), h, fs) by {
            assert(quality_views(ranked@) =~= Seq::<QualityView>::empty());
        }
    }
    while qualities.len() > 0
        invariant
            0 <= taken <= input.len(),
            quality_views(qualities@) == input.subrange(taken, input.len() as int),
            is_ranked(quality_views(ranked@)),
            forall|h: Option<u64>, fs: Option<u64>| #[trigger]
                of_rank(quality_views(ranked@), h, fs) == of_rank(
                    input.subrange(0, taken),
                    h,
                    fs,
                ),
        decreases qualities.len(),
    {
        let ghost rest = quality_views(qualities@);
        let ghost old_items = qualities@;
        assert(rest.len() == old_items.len());
        assert(rest[0] == old_items[0]@);
        assert(rest[0] == input[taken]);
        let q = qualities.remove(0);
        assert(q@ == rest[0]);
        proof {
            assert(qualities@ =~= old_items.subrange(1, old_items.len() as int));
            assert forall|k: int| 0 <= k < qualities@.len() implies #[trigger] quality_views(
                qualities@,
            )[k] == input.subrange(taken + 1, input.len() as int)[k] by {
                assert(qualities@[k] == old_items[k + 1]);
                assert(rest[k + 1] == old_items[k + 1]@);
            }
            assert(quality_views(qualities@) =~= input.subrange(taken + 1, input.len() as int));
        }
        let ghost r = quality_views(ranked@);
        let mut p: usize = 0;
        while p < ranked.len() && !ranks_above_exec(&q, &ranked[p as usize])
            invariant
                r == quality_views(ranked@),
                p <= ranked.len(),
                forall|i: int| 0 <= i < p ==> !ranks_above(q@, #[trigger] r[i]),
            decreases ranked.len() - p,
        {
            p = p + 1;
        }
        proof {
            lemma_insert_ranked(r, q@, p as int);
        }
        ranked.insert(p, q);
        proof {
            assert(quality_views(ranked@) =~= r.insert(p as int, q@));
            let before = input.subrange(0, taken);
            let after = input.subrange(0, taken + 1);
            assert(after =~= before + seq![q@]);
            assert forall|h: Option<u64>, fs: Option<u64>| #[trigger]
                of_rank(quality_views(ranked@), h, fs) == of_rank(after, h, fs) by {
                lemma_of_rank_add(before, seq![q@], h, fs);
            }
            taken = taken + 1;
        }
    }
    assert(input.subrange(0, taken) =~= input);
    *qualities = ranked;
}

// ---------------------------------------------------------------------------
// Subtitles
// ---------------------------------------------------------------------------

/// The formats a subtitle track lists: the `ext` of each item that has one.
pub open spec fn present_exts(entries: Seq<Option<String>>) -> Seq<Seq<char>>
    decreases entries.len(),
{
    if entries.len() == 0 {
        Seq::empty()
    } else {
        let prev = present_exts(entries.drop_last());
        match entries.last() {
            Some(e) => prev.push(e@),
            None => prev,
        }
    }
}

/// The subtitle option of a track of the given kind.
pub open spec fn track_option(t: SubtitleTrack, kind: Seq<char>) -> SubtitleView {
    SubtitleView {
        language: t.language@,
        kind: kind,
        formats: match t.entries {
            Some(e) => present_exts(e@),
            None => Seq::empty(),
        },
    }
}

/// The subtitle options of a group of tracks of the given kind, in order.
pub open spec fn group_options(tracks: Option<Vec<SubtitleTrack>>, kind: Seq<char>) -> Seq<
    SubtitleView,
> {
    match tracks {
        Some(t) => t@.map_values(|x: SubtitleTrack| track_option(x, kind)),
        None => Seq::empty(),
    }
}

/// The subtitle options of a metadata document: the manual subtitles, then
/// the automatic captions.
pub open spec fn metadata_subtitles(m: Metadata) -> Seq<SubtitleView> {
    group_options(m.subtitles, "manual"@) + group_options(m.automatic_captions, "auto"@)
}

/// The formats a subtitle track lists.
fn track_formats(entries: &Option<Vec<Option<String>>>) -> (res: Vec<String>)
    ensures
        views(res@) == match *entries {
            Some(e) => present_exts(e@),
            None => Seq::empty(),
        },
{
    let mut formats: Vec<String> = Vec::new();
    match entries {
        None => {
            assert(views(formats@) =~= Seq::<Seq<char>>::empty());
        },
        Some(items) => {
            let n = items.len();
            let mut i: usize = 0;
            assert(views(formats@) =~= present_exts(items@.subrange(0, 0)));
            while i < n
                invariant
                    n == items.len(),
                    i <= n,
                    views(formats@) == present_exts(items@.subrange(0, i as int)),
                decreases n - i,
            {
                let ghost before = items@.subrange(0, i as int);
                let ghost after = items@.subrange(0, i + 1);
                assert(after.drop_last() =~= before);
                match &items[i] {
                    Some(e) => formats.push(e.clone()),
                    None => {},
                }
                assert(views(formats@) =~= present_exts(after));
                i = i + 1;
            }
            assert(items@.subrange(0, n as int) =~= items@);
        },
    }
    formats
}

/// Appends the options of a group of tracks of the given kind.
fn push_group(
    results: &mut Vec<SubtitleOption>,
    tracks: &Option<Vec<SubtitleTrack>>,
    kind: &str,
)
    ensures
        subtitle_views(final(results)@) == subtitle_views(old(results)@) + group_options(
            *tracks,
            kind@,
        ),
{
    let ghost start = subtitle_views(results@);
    match tracks {
        None => {
            assert(subtitle_views(results@) =~= start + Seq::<SubtitleView>::empty());
        },
        Some(list) => {
            let ghost all = list@.map_values(|x: SubtitleTrack| track_option(x, kind@));
            let n = list.len();
            let mut i: usize = 0;
            assert(subtitle_views(results@) =~= start + all.subrange(0, 0));
            while i < n
                invariant
                    n == list.len(),
                    i <= n,
                    all == list@.map_values(|x: SubtitleTrack| track_option(x, kind@)),
                    subtitle_views(results@) == start + all.subrange(0, i as int),
                decreases n - i,
            {
                let track = &list[i];
                let option = SubtitleOption {
                    language: track.language.clone(),
                    kind: owned(kind),
                    formats: track_formats(&track.entries),
                };
                assert(option@ == all[i as int]);
                let ghost prev_items = results@;
                results.push(option);
                assert(results@ == prev_items.push(option));
                assert(subtitle_views(results@) =~= subtitle_views(prev_items).push(option@));
                assert(all.subrange(0, i + 1) =~= all.subrange(0, i as int).push(all[i as int]));
                assert(subtitle_views(results@) =~= start + all.subrange(0, i + 1));
                i = i + 1;
            }
            assert(all.subrange(0, n as int) =~= all);
        },
    }
}

/// The subtitle options of the metadata: manual subtitles, then automatic
/// captions, each with the formats its track lists.
pub fn extract_subtitles(metadata: &Metadata) -> (res: Vec<SubtitleOption>)
    ensures
        subtitle_views(res@) == metadata_subtitles(*metadata),
{
    let mut results: Vec<SubtitleOption> = Vec::new();
    assert(subtitle_views(results@) =~= Seq::<SubtitleView>::empty());
    push_group(&mut results, &metadata.subtitles, "manual");
    push_group(&mut results, &metadata.automatic_captions, "auto");
    assert(subtitle_views(results@) =~= metadata_subtitles(*metadata));
    results
}

// ---------------------------------------------------------------------------
// The inspection response
// ---------------------------------------------------------------------------

/// The source summary of a quality.
pub open spec fn summary_of(q: QualityView) -> SummaryView {
    SummaryView { vcodec: q.vcodec, acodec: q.acodec, container: q.container, has_audio: q.has_audio }
}

/// The source summary of the quality a download would start from.
pub fn source_summary_from_quality(quality: &QualityOption) -> (res: SourceSummary)
    ensures
        res@ == summary_of(quality@),
{
    SourceSummary {
        vcodec: quality.vcodec.clone(),
        acodec: quality.acodec.clone(),
        container: quality.container.clone(),
        has_audio: quality.has_audio,
    }
}

/// What the client is told about a video it may download.
pub struct InspectResponse {
    pub title: String,
    pub webpage_url: Option<String>,
    pub default_format_id: Option<String>,
    pub source_video_codec: Option<String>,
    pub source_audio_codec: Option<String>,
    pub source_container: Option<String>,
    pub source_classification: String,
    pub recommended_output_mode: String,
    pub recommended_conversion_profile: Option<String>,
    pub qualities: Vec<QualityOption>,
    pub subtitles: Vec<SubtitleOption>,
}

/// The title of the metadata, `Unknown title` when it has none.
pub open spec fn title_of(m: Metadata) -> Seq<char> {
    match m.title {
        Some(t) => t@,
        None => "Unknown title"@,
    }
}

/// The response fields that follow from the first ranked quality, if any:
/// default selector, codecs, container, classification, recommended mode and
/// recommended profile.
pub open spec fn leading_fields(first: Option<QualityView>) -> (
    Option<Seq<char>>,
    Option<Seq<char>>,
    Option<Seq<char>>,
    Option<Seq<char>>,
    Seq<char>,
    Seq<char>,
    Option<Seq<char>>,
) {
    match first {
        Some(q) => (
            Some(q.download_selector),
            q.vcodec,
            q.acodec,
            q.container,
            source_classification(summary_of(q)),
            recommended_mode(source_classification(summary_of(q))),
            Some(source_recommendation(summary_of(q))),
        ),
        None => (None, None, None, None, "unknown"@, "natural"@, None),
    }
}

/// The response fields that follow from the first ranked quality.
pub open spec fn response_leading_fields(r: InspectResponse) -> (
    Option<Seq<char>>,
    Option<Seq<char>>,
    Option<Seq<char>>,
    Option<Seq<char>>,
    Seq<char>,
    Seq<char>,
    Option<Seq<char>>,
) {
    (
        opt_view(r.default_format_id),
        opt_view(r.source_video_codec),
        opt_view(r.source_audio_codec),
        opt_view(r.source_container),
        r.source_classification@,
        r.recommended_output_mode@,
        opt_view(r.recommended_conversion_profile),
    )
}

/// The response to an inspection of `metadata`: its title and page, its
/// qualities ranked tallest and largest first, its subtitles, and the
/// recommendation made for the first ranked quality.
pub fn build_inspect_response(metadata: &Metadata) -> (res: InspectResponse)
    ensures
        res.title@ == title_of(*metadata),
        opt_view(res.webpage_url) == opt_view(metadata.webpage_url),
        is_stable_ranking(metadata_qualities(*metadata), quality_views(res.qualities@)),
        response_leading_fields(res) == leading_fields(
            if res.qualities@.len() > 0 {
                Some(res.qualities@[0]@)
            } else {
                None
            },
        ),
        subtitle_views(res.subtitles@) == metadata_subtitles(*metadata),
{
    let title = match &metadata.title {
        Some(t) => t.clone(),
        None => owned("Unknown title"),
    };
    let webpage_url = match &metadata.webpage_url {
        Some(u) => Some(u.clone()),
        None => None,
    };
    let mut qualities = extract_qualities(metadata);
    rank_qualities(&mut qualities);
    let subtitles = extract_subtitles(metadata);
    if qualities.len() == 0 {
        return InspectResponse {
            title,
            webpage_url,
            default_format_id: None,
            source_video_codec: None,
            source_audio_codec: None,
            source_container: None,
            source_classification: owned("unknown"),
            recommended_output_mode: owned("natural"),
            recommended_conversion_profile: None,
            qualities,
            subtitles,
        };
    }
    let default_format_id = Some(qualities[0].download_selector.clone());
    let summary = source_summary_from_quality(&qualities[0]);
    let source_classification = classify_source(&summary);
    let recommended_output_mode = recommended_output_mode(source_classification.as_str());
    let recommended_conversion_profile = recommended_conversion_profile(&summary);
    InspectResponse {
        title,
        webpage_url,
        default_format_id,
        source_video_codec: summary.vcodec.clone(),
        source_audio_codec: summary.acodec.clone(),
        source_container: summary.container.clone(),
        source_classification,
        recommended_output_mode,
        recommended_conversion_profile,
        qualities,
        subtitles,
    }
}

} // verus!
