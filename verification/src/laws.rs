//! Properties that hold across the operations of the library.

use vstd::prelude::*;
use crate::request::{
    explicit_conversion, keeps_natural, natural_plan, normalized_mode, output_template, plan_for_mode,
    ytdlp_args,
    DownloadRequest, PlanErrorView, wants_split, wants_video, wants_audio, PassView,
};
use crate::task::{
    after_abort, after_begin, after_cancel, after_completion, after_heartbeat,
    after_pass_cancel_check, after_pass_cancelled, after_pass_exit, after_pass_start, after_step,
    after_tool_failure, is_final, queued_task, step_of, RunStep, TaskPhase, TaskStatus, TaskView,
};
use crate::output::{after_line, line_kind, unmatched_line_kind, with_path, LineKind, PROGRESS_PATTERN};
use crate::output::regex_groups;
use crate::text::{
    contains_seq, decimal, digit_char, join_seq, views, is_white_space, opt_view, trim_end_seq, trim_seq,
    trim_start_seq,
};
use crate::pipeline::{
    after_conversion, after_conversion_cancelled, after_conversion_note, after_conversion_start,
    conversion_after_pass, without_path,
};
use crate::inspect::{
    is_stable_ranking, leading_fields, metadata_qualities, metadata_subtitles, of_rank, qualities_from,
    quality_of, ranks_above, present_exts, summary_of, FormatEntry, Metadata, QualityView,
    SubtitleTrack,
};
use crate::source::{classification, recommendation, recommended_mode};
use crate::conversion::{converted_name, ffmpeg_args, path_joined, target_extension};
use crate::tools::{ffmpeg_choice, ytdlp_choice};

verus! {

// ---------------------------------------------------------------------------
// Output paths
// ---------------------------------------------------------------------------

/// The output paths of a task are consistent: no path is listed twice, the
/// current output path and the current pass's output are among them, and
/// there is a current output path exactly when some path has been captured.
pub open spec fn paths_consistent(s: TaskView) -> bool {
    &&& s.output_paths.no_duplicates()
    &&& match s.output_path {
        Some(p) => s.output_paths.contains(p),
        None => s.output_paths.len() == 0,
    }
    &&& match s.pass_output {
        Some(p) => s.output_paths.contains(p),
        None => true,
    }
}

/// The current output path is the first captured path.
pub open spec fn primary_is_first(s: TaskView) -> bool {
    if s.output_paths.len() == 0 {
        s.output_path is None
    } else {
        s.output_path == Some(s.output_paths[0])
    }
}

proof fn lemma_with_path(paths: Seq<Seq<char>>, p: Seq<char>)
    requires
        paths.no_duplicates(),
    ensures
        with_path(paths, p).no_duplicates(),
        with_path(paths, p).contains(p),
        forall|x: Seq<char>| paths.contains(x) ==> #[trigger] with_path(paths, p).contains(x),
        paths.len() > 0 ==> with_path(paths, p)[0] == paths[0],
        paths.len() == 0 ==> with_path(paths, p) == seq![p],
{
    if !paths.contains(p) {
        let q = paths.push(p);
        assert(q[paths.len() as int] == p);
        assert forall|i: int, j: int| 0 <= i < q.len() && 0 <= j < q.len() && i != j implies q[i]
            != q[j] by {
            if i < paths.len() && j < paths.len() {
            } else if i == paths.len() {
                assert(q[j] == paths[j]);
            } else {
                assert(q[i] == paths[i]);
            }
        }
        assert forall|x: Seq<char>| paths.contains(x) implies #[trigger] q.contains(x) by {
            let k = choose|k: int| 0 <= k < paths.len() && paths[k] == x;
            assert(q[k] == x);
        }
        if paths.len() == 0 {
            assert(q =~= seq![p]);
        }
    }
}

proof fn lemma_without_path(paths: Seq<Seq<char>>, x: Seq<char>)
    requires
        paths.no_duplicates(),
    ensures
        without_path(paths, x).no_duplicates(),
        !without_path(paths, x).contains(x),
        forall|y: Seq<char>| #[trigger] without_path(paths, x).contains(y) ==> paths.contains(y),
    decreases paths.len(),
{
    if paths.len() > 0 {
        let rest = paths.drop_last();
        assert forall|i: int, j: int| 0 <= i < rest.len() && 0 <= j < rest.len() && i != j implies rest[i]
            != rest[j] by {
            assert(rest[i] == paths[i] && rest[j] == paths[j]);
        }
        lemma_without_path(rest, x);
        let w = without_path(rest, x);
        assert forall|y: Seq<char>| #[trigger] rest.contains(y) implies paths.contains(y) by {
            let k = choose|k: int| 0 <= k < rest.len() && rest[k] == y;
            assert(paths[k] == y);
        }
        if paths.last() != x {
            let last = paths.last();
            assert(!rest.contains(last)) by {
                if rest.contains(last) {
                    let k = choose|k: int| 0 <= k < rest.len() && rest[k] == last;
                    assert(paths[k] == paths[paths.len() - 1]);
                }
            }
            assert(!w.contains(last));
            let q = w.push(last);
            assert forall|i: int, j: int| 0 <= i < q.len() && 0 <= j < q.len() && i != j implies q[i]
                != q[j] by {
                if i < w.len() && j < w.len() {
                } else if i == w.len() {
                    assert(q[j] == w[j]);
                } else {
                    assert(q[i] == w[i]);
                }
            }
            assert forall|y: Seq<char>| #[trigger] q.contains(y) implies paths.contains(y) by {
                let k = choose|k: int| 0 <= k < q.len() && q[k] == y;
                if k < w.len() {
                    assert(w[k] == y);
                    assert(w.contains(y));
                } else {
                    assert(paths[paths.len() - 1] == y);
                }
            }
            assert(!q.contains(x)) by {
                if q.contains(x) {
                    let k = choose|k: int| 0 <= k < q.len() && q[k] == x;
                    if k < w.len() {
                        assert(w[k] == x);
                        assert(w.contains(x));
                    }
                }
            }
        }
    }
}

/// Reading a downloader line keeps the output paths consistent.
pub proof fn law_lines_keep_paths_consistent(s: TaskView, kind: LineKind, line: Seq<char>)
    requires
        paths_consistent(s),
    ensures
        paths_consistent(after_line(s, kind, line)),
{
    match kind {
        LineKind::OutputPath(p) => {
            lemma_with_path(s.output_paths, p);
        },
        _ => {},
    }
}

/// Reading downloader lines keeps the current output path the first captured
/// path.
pub proof fn law_lines_keep_first_capture_primary(s: TaskView, kind: LineKind, line: Seq<char>)
    requires
        paths_consistent(s),
        primary_is_first(s),
    ensures
        primary_is_first(after_line(s, kind, line)),
{
    match kind {
        LineKind::OutputPath(p) => {
            lemma_with_path(s.output_paths, p);
        },
        _ => {},
    }
}

proof fn lemma_conversion_paths(
    s: TaskView,
    source: Seq<char>,
    converted: Seq<char>,
    keep_source: bool,
)
    requires
        paths_consistent(s),
    ensures
        ({
            let remaining = if keep_source {
                s.output_paths
            } else {
                without_path(s.output_paths, source)
            };
            &&& remaining.no_duplicates()
            &&& with_path(remaining, converted).no_duplicates()
            &&& with_path(remaining, converted).contains(converted)
            &&& with_path(remaining, converted).len() > 0
            &&& keep_source && s.output_paths.len() > 0 ==> with_path(remaining, converted)[0]
                == s.output_paths[0]
            &&& forall|x: Seq<char>| #[trigger] remaining.contains(x) ==> with_path(
                remaining,
                converted,
            ).contains(x)
        }),
{
    let remaining = if keep_source {
        s.output_paths
    } else {
        without_path(s.output_paths, source)
    };
    if !keep_source {
        lemma_without_path(s.output_paths, source);
    }
    lemma_with_path(remaining, converted);
    assert(with_path(remaining, converted)[0] == with_path(remaining, converted)[0]);
}

/// A successful conversion keeps the output paths consistent, and the
/// current output path stays the first listed path.
pub proof fn law_conversion_keeps_paths_consistent(
    s: TaskView,
    source: Seq<char>,
    converted: Seq<char>,
    keep_source: bool,
    profile: Seq<char>,
)
    requires
        paths_consistent(s),
        primary_is_first(s),
    ensures
        paths_consistent(after_conversion(s, source, converted, keep_source, profile)),
        primary_is_first(after_conversion(s, source, converted, keep_source, profile)),
{
    lemma_conversion_paths(s, source, converted, keep_source);
    let paths = after_conversion(s, source, converted, keep_source, profile).output_paths;
    assert(paths.contains(paths[0]));
}

/// When both outputs are kept, a conversion leaves the current output path
/// (the first captured file) as it was, and adds the converted file.
pub proof fn law_kept_source_keeps_output_path(
    s: TaskView,
    source: Seq<char>,
    converted: Seq<char>,
    profile: Seq<char>,
)
    requires
        s.output_path is Some,
    ensures
        after_conversion(s, source, converted, true, profile).output_path == s.output_path,
        after_conversion(s, source, converted, true, profile).output_paths == with_path(
            s.output_paths,
            converted,
        ),
{
}

/// Converting without keeping the source drops the source from the output
/// paths (unless the source is itself the converted file) and lists the
/// converted file.
pub proof fn law_conversion_drops_source(
    s: TaskView,
    source: Seq<char>,
    converted: Seq<char>,
    profile: Seq<char>,
)
    requires
        paths_consistent(s),
        source != converted,
    ensures
        !after_conversion(s, source, converted, false, profile).output_paths.contains(source),
        after_conversion(s, source, converted, false, profile).output_paths.contains(converted),
{
    lemma_without_path(s.output_paths, source);
    let remaining = without_path(s.output_paths, source);
    lemma_with_path(remaining, converted);
    let out = with_path(remaining, converted);
    if out.contains(source) {
        let k = choose|k: int| 0 <= k < out.len() && out[k] == source;
        if !remaining.contains(converted) {
            if k < remaining.len() {
                assert(remaining[k] == source);
                assert(remaining.contains(source));
            }
        }
    }
}

/// Converting while keeping the source keeps every captured path and lists
/// the converted file.
pub proof fn law_conversion_keeps_source(
    s: TaskView,
    source: Seq<char>,
    converted: Seq<char>,
    profile: Seq<char>,
    p: Seq<char>,
)
    requires
        paths_consistent(s),
        s.output_paths.contains(p),
    ensures
        after_conversion(s, source, converted, true, profile).output_paths.contains(p),
        after_conversion(s, source, converted, true, profile).output_paths.contains(converted),
{
    lemma_with_path(s.output_paths, converted);
}

/// The file converted after a pass is the one that pass captured.
pub proof fn law_conversion_targets_pass_output(s: TaskView, req: DownloadRequest)
    requires
        explicit_conversion(req),
        s.pass_output is Some,
    ensures
        conversion_after_pass(s, req) matches Some(job) && job.0 == s.pass_output->0,
{
}

/// A pass starts with nothing captured by it.
pub proof fn law_pass_start_forgets_previous_output(s: TaskView, label: Seq<char>)
    ensures
        after_pass_start(s, label).pass_output is None,
{
}

// ---------------------------------------------------------------------------
// Cancellation and final states
// ---------------------------------------------------------------------------

/// A task that has completed, failed or been cancelled keeps that status:
/// no transition changes it, and the run takes no further pass.
pub proof fn law_final_status_never_changes(
    s: TaskView,
    kind: LineKind,
    line: Seq<char>,
    label: Seq<char>,
    success: bool,
    text: Seq<char>,
    grace_over: bool,
    keep_source: bool,
    done: int,
    total: int,
)
    requires
        is_final(s),
    ensures
        after_line(s, kind, line).status == s.status,
        after_conversion(s, text, line, keep_source, label).status == s.status,
        after_conversion_note(s, line).status == s.status,
        after_conversion_start(s, label).status == s.status,
        after_conversion_cancelled(s).status == s.status,
        after_begin(s).status == s.status,
        after_step(s, done, total).status == s.status,
        step_of(s, done, total) == RunStep::Stop,
        after_completion(s).status == s.status,
        after_pass_start(s, label).status == s.status,
        after_pass_cancel_check(s, label).status == s.status,
        after_pass_cancelled(s).status == s.status,
        after_pass_exit(s, label, success, text).status == s.status,
        after_heartbeat(s, grace_over).status == s.status,
        after_abort(s, text).status == s.status,
        after_tool_failure(s, label, text).status == s.status,
{
}

/// A run's step leaves a final task that is not marked for cancellation
/// entirely as it is.
pub proof fn law_step_leaves_finished_task(s: TaskView, done: int, total: int)
    requires
        is_final(s),
        !s.cancel_requested,
    ensures
        after_step(s, done, total) == s,
{
}

/// Once requested, cancellation is never withdrawn: only a cancellation
/// request changes the flag, and it sets it.
pub proof fn law_cancel_request_sticks(
    s: TaskView,
    kind: LineKind,
    line: Seq<char>,
    label: Seq<char>,
    success: bool,
    text: Seq<char>,
    grace_over: bool,
    keep_source: bool,
    done: int,
    total: int,
)
    ensures
        after_cancel(s).cancel_requested,
        after_line(s, kind, line).cancel_requested == s.cancel_requested,
        after_conversion(s, text, line, keep_source, label).cancel_requested == s.cancel_requested,
        after_conversion_note(s, line).cancel_requested == s.cancel_requested,
        after_conversion_start(s, label).cancel_requested == s.cancel_requested,
        after_conversion_cancelled(s).cancel_requested == s.cancel_requested,
        after_begin(s).cancel_requested == s.cancel_requested,
        after_step(s, done, total).cancel_requested == s.cancel_requested,
        after_pass_start(s, label).cancel_requested == s.cancel_requested,
        after_pass_cancel_check(s, label).cancel_requested == s.cancel_requested,
        after_pass_cancelled(s).cancel_requested == s.cancel_requested,
        after_pass_exit(s, label, success, text).cancel_requested == s.cancel_requested,
        after_heartbeat(s, grace_over).cancel_requested == s.cancel_requested,
        after_abort(s, text).cancel_requested == s.cancel_requested,
        after_tool_failure(s, label, text).cancel_requested == s.cancel_requested,
{
}

/// A task cancelled while queued never starts: the run finds it cancelled
/// and stops.
pub proof fn law_cancelled_queued_task_never_starts(s: TaskView, done: int, total: int)
    requires
        s.status == TaskStatus::Queued,
    ensures
        after_cancel(s).status == TaskStatus::Cancelled,
        after_begin(after_cancel(s)).status == TaskStatus::Cancelled,
        step_of(after_cancel(s), done, total) == RunStep::Stop,
{
}

/// A cancellation requested while a pass runs stops that pass at its next
/// check, and the run then stops with the task cancelled; it is never
/// completed.
pub proof fn law_cancel_stops_running_pass(s: TaskView, label: Seq<char>, done: int, total: int)
    requires
        s.status == TaskStatus::Running,
    ensures
        after_pass_cancel_check(after_cancel(s), label).status == TaskStatus::Cancelling,
        after_pass_cancelled(after_pass_cancel_check(after_cancel(s), label)).status
            == TaskStatus::Cancelled,
        step_of(after_cancel(s), done, total) == RunStep::Stop,
        after_step(after_cancel(s), done, total).status == TaskStatus::Cancelled,
{
}

/// A pass whose downloader fails leaves a task that was neither completed
/// nor cancelled failed, with the downloader's exit as its error, and the
/// run stops there: it is never completed.
pub proof fn law_failed_pass_stops_run(
    s: TaskView,
    label: Seq<char>,
    text: Seq<char>,
    done: int,
    total: int,
)
    requires
        s.status != TaskStatus::Completed,
        s.status != TaskStatus::Cancelled,
    ensures
        after_pass_exit(s, label, false, text).status == TaskStatus::Failed,
        after_pass_exit(s, label, false, text).phase == TaskPhase::Failed,
        after_pass_exit(s, label, false, text).error == Some("yt-dlp"@ + " exited with status: "@ + text),
        step_of(after_pass_exit(s, label, false, text), done, total) == RunStep::Stop,
        after_step(after_pass_exit(s, label, false, text), done, total).status
            == TaskStatus::Failed,
{
}

/// A run of a freshly queued task, not cancelled, starts its first pass
/// with the task running.
pub proof fn law_fresh_run_starts_running(label: Seq<char>, total: int)
    requires
        total > 0,
    ensures
        after_begin(queued_task()).status == TaskStatus::Running,
        step_of(after_begin(queued_task()), 0, total) == RunStep::StartPass(0),
        after_step(after_begin(queued_task()), 0, total) == after_begin(queued_task()),
        after_pass_start(after_begin(queued_task()), label).status == TaskStatus::Running,
{
}

/// A downloader line never completes or cancels a task: the status stays,
/// or becomes failed.
pub proof fn law_lines_never_complete_or_cancel(s: TaskView, kind: LineKind, line: Seq<char>)
    ensures
        after_line(s, kind, line).status == s.status || after_line(s, kind, line).status
            == TaskStatus::Failed,
{
}

/// Once every pass has run, the run's last step leaves the task final:
/// completed, or cancelled if cancellation was requested, or as it already
/// was.
pub proof fn law_run_ends_final(s: TaskView, total: int)
    ensures
        is_final(after_step(s, total, total)),
        step_of(s, total, total) != RunStep::StartPass(total as usize),
        step_of(s, total, total) == RunStep::Complete ==> after_step(s, total, total).status
            == TaskStatus::Completed,
{
}

/// Heartbeats change nothing unless the task is running.
pub proof fn law_heartbeat_only_while_running(s: TaskView, grace_over: bool)
    requires
        s.status != TaskStatus::Running,
    ensures
        after_heartbeat(s, grace_over) == s,
{
}

// ---------------------------------------------------------------------------
// Download plans
// ---------------------------------------------------------------------------

/// The three output modes download the same natural passes.
pub proof fn law_modes_share_natural_passes(req: DownloadRequest)
    ensures
        plan_for_mode(req, "converted"@) == natural_plan(req),
        plan_for_mode(req, "both"@) == natural_plan(req),
        plan_for_mode(req, "natural"@) == natural_plan(req),
{
}

/// Split mode with neither stream is refused.
pub proof fn law_split_needs_a_stream(req: DownloadRequest)
    requires
        wants_split(req),
        !wants_video(req),
        !wants_audio(req),
    ensures
        natural_plan(req) == Err::<Seq<PassView>, PlanErrorView>(PlanErrorView::NoSplitStream),
{
}

/// A download that is not split runs one pass, with no file name suffix; a
/// split download runs one pass per chosen stream, video first, and names
/// their files with `_video` and `_audio`.
pub proof fn law_split_pass_shape(req: DownloadRequest)
    ensures
        !wants_split(req) ==> (natural_plan(req) is Ok && natural_plan(req)->Ok_0.len() == 1
            && natural_plan(req)->Ok_0[0].output_suffix is None),
        wants_split(req) && (wants_video(req) || wants_audio(req)) ==> (natural_plan(req) is Ok
            && natural_plan(req)->Ok_0.len() == (if wants_video(req) {
            1int
        } else {
            0int
        }) + (if wants_audio(req) {
            1int
        } else {
            0int
        })),
        wants_split(req) && wants_video(req) ==> output_template(
            natural_plan(req)->Ok_0[0].output_suffix,
        ) == "%(title)s_video.%(ext)s"@,
        wants_split(req) && wants_audio(req) ==> output_template(
            natural_plan(req)->Ok_0.last().output_suffix,
        ) == "%(title)s_audio.%(ext)s"@,
{
    reveal_strlit("%(title)s_");
    reveal_strlit(".%(ext)s");
    reveal_strlit("video");
    reveal_strlit("audio");
    reveal_strlit("%(title)s_video.%(ext)s");
    reveal_strlit("%(title)s_audio.%(ext)s");
    assert("%(title)s_"@ + "video"@ + ".%(ext)s"@ =~= "%(title)s_video.%(ext)s"@);
    assert("%(title)s_"@ + "audio"@ + ".%(ext)s"@ =~= "%(title)s_audio.%(ext)s"@);
}

proof fn lemma_mode_literals()
    ensures
        "natural"@ != "converted"@,
        "natural"@ != "both"@,
        "converted"@ != "both"@,
{
    reveal_strlit("natural");
    reveal_strlit("converted");
    reveal_strlit("both");
    assert("natural"@[0] != "converted"@[0]);
    assert("natural"@[0] != "both"@[0]);
    assert("converted"@[0] != "both"@[0]);
}

/// The output modes as the API describes them, read trimmed and lowercased:
/// `natural` (also when no mode is named) makes no converted copy;
/// `converted` makes one and keeps only it; `both` makes one and keeps the
/// natural file too.
pub proof fn law_output_modes(req: DownloadRequest)
    ensures
        (req.output_mode is None || normalized_mode(req) == "natural"@) ==> !explicit_conversion(
            req,
        ) && !keeps_natural(req),
        (req.output_mode is Some && normalized_mode(req) == "converted"@) ==> explicit_conversion(
            req,
        ) && !keeps_natural(req),
        (req.output_mode is Some && normalized_mode(req) == "both"@) ==> explicit_conversion(req)
            && keeps_natural(req),
{
    lemma_mode_literals();
}

/// No conversion follows a pass unless the request asks for converted
/// output, whatever the task has captured.
pub proof fn law_conversion_only_when_asked(s: TaskView, req: DownloadRequest)
    requires
        !explicit_conversion(req),
    ensures
        conversion_after_pass(s, req) is None,
{
}

// ---------------------------------------------------------------------------
// Ranking
// ---------------------------------------------------------------------------

proof fn lemma_of_rank_members(s: Seq<QualityView>, h: Option<u64>, fs: Option<u64>)
    ensures
        forall|q: QualityView| #[trigger] of_rank(s, h, fs).contains(q) <==> (s.contains(q)
            && q.height == h && q.filesize == fs),
    decreases s.len(),
{
    if s.len() == 0 {
        assert forall|q: QualityView| #[trigger] of_rank(s, h, fs).contains(q) <==> (s.contains(q)
            && q.height == h && q.filesize == fs) by {
            assert(of_rank(s, h, fs).len() == 0);
        }
    } else {
        let t = s.drop_last();
        let x = s.last();
        let r = of_rank(t, h, fs);
        lemma_of_rank_members(t, h, fs);
        let keyed = x.height == h && x.filesize == fs;
        assert(of_rank(s, h, fs) == if keyed { r.push(x) } else { r });
        assert forall|q: QualityView| #[trigger] of_rank(s, h, fs).contains(q) <==> (s.contains(q)
            && q.height == h && q.filesize == fs) by {
            if s.contains(q) && q.height == h && q.filesize == fs {
                let k = choose|k: int| 0 <= k < s.len() && s[k] == q;
                if k < t.len() {
                    assert(t[k] == q);
                    assert(t.contains(q));
                    assert(r.contains(q));
                    let k2 = choose|k2: int| 0 <= k2 < r.len() && r[k2] == q;
                    if keyed {
                        assert(r.push(x)[k2] == q);
                    }
                } else {
                    assert(q == x);
                    assert(r.push(x)[r.len() as int] == q);
                }
            }
            if of_rank(s, h, fs).contains(q) {
                let o = of_rank(s, h, fs);
                let k = choose|k: int| 0 <= k < o.len() && o[k] == q;
                if keyed && k == r.len() {
                    assert(q == x);
                    assert(s[s.len() - 1] == q);
                } else {
                    assert(r[k] == q);
                    assert(r.contains(q));
                    assert(t.contains(q));
                    let m = choose|m: int| 0 <= m < t.len() && t[m] == q;
                    assert(s[m] == q);
                }
            }
        }
    }
}

/// Ranking keeps exactly the qualities it is given, and the first ranked
/// quality is the tallest, then the largest: no quality ranks above it.
pub proof fn law_ranking_keeps_qualities_and_leads_with_best(
    input: Seq<QualityView>,
    out: Seq<QualityView>,
)
    requires
        is_stable_ranking(input, out),
    ensures
        forall|q: QualityView| #[trigger] out.contains(q) <==> input.contains(q),
        out.len() > 0 ==> forall|i: int| 0 <= i < input.len() ==> !ranks_above(#[trigger] input[i], out[0]),
{
    assert forall|q: QualityView| #[trigger] out.contains(q) <==> input.contains(q) by {
        lemma_of_rank_members(out, q.height, q.filesize);
        lemma_of_rank_members(input, q.height, q.filesize);
        assert(of_rank(out, q.height, q.filesize) == of_rank(input, q.height, q.filesize));
        if out.contains(q) {
            assert(of_rank(out, q.height, q.filesize).contains(q));
        }
        if input.contains(q) {
            assert(of_rank(input, q.height, q.filesize).contains(q));
        }
    }
    if out.len() > 0 {
        assert forall|i: int| 0 <= i < input.len() implies !ranks_above(#[trigger] input[i], out[0]) by {
            let q = input[i];
            assert(input.contains(q));
            assert(out.contains(q));
            let k = choose|k: int| 0 <= k < out.len() && out[k] == q;
            if k > 0 {
                assert(!ranks_above(out[k], out[0]));
            } else {
                assert(!ranks_above(out[0], out[0]));
            }
        }
    }
}

/// The recommendation made after inspection follows the classification of
/// the first ranked quality: an unfriendly source is recommended a converted
/// copy, any other one its natural output; without qualities the source is
/// unknown and the natural output recommended.
pub proof fn law_recommendation_follows_classification(first: Option<QualityView>)
    ensures
        leading_fields(first).5 == recommended_mode(leading_fields(first).4),
        recommended_mode("unfriendly"@) == "converted"@,
        first is None ==> leading_fields(first).4 == "unknown"@ && leading_fields(first).5
            == "natural"@,
{
    reveal_strlit("unknown");
    reveal_strlit("unfriendly");
    assert("unknown"@.len() != "unfriendly"@.len());
}

// ---------------------------------------------------------------------------
// Conversion targets
// ---------------------------------------------------------------------------

/// The converted copy is never named like its source: whatever the profile,
/// the name made from a stem differs from the stem itself and from the stem
/// followed by a dot and any extension.
pub proof fn law_converted_name_differs_from_source_name(
    stem: Seq<char>,
    ext: Seq<char>,
    profile: Seq<char>,
)
    ensures
        converted_name(stem, profile) != stem,
        converted_name(stem, profile) != stem + "."@ + ext,
{
    reveal_strlit("_converted.");
    reveal_strlit(".");
    let name = converted_name(stem, profile);
    assert(name.len() > stem.len());
    assert(name[stem.len() as int] == '_');
    assert((stem + "."@ + ext)[stem.len() as int] == '.');
}

/// The recommended profile keeps the kind of the source: a source with video
/// gets a video profile (`mov_prores` when it is lossless or held in a MOV
/// container, `mp4_h264_aac` otherwise), a source without video an audio
/// profile (`wav` when it is lossless or held in a WAV container, `m4a_aac`
/// otherwise).
pub proof fn law_recommendation_keeps_stream_kind(
    video: Seq<char>,
    audio: Seq<char>,
    container: Seq<char>,
)
    ensures
        video != "none"@ ==> (recommendation(video, audio, container) == "mov_prores"@ <==> (
        container == "mov"@ || video == "prores"@)),
        video != "none"@ ==> (recommendation(video, audio, container) == "mov_prores"@
            || recommendation(video, audio, container) == "mp4_h264_aac"@),
        video == "none"@ ==> (recommendation(video, audio, container) == "wav"@ <==> (container
            == "wav"@ || audio == "pcm_s16le"@ || audio == "pcm_f32le"@)),
        video == "none"@ ==> (recommendation(video, audio, container) == "wav"@
            || recommendation(video, audio, container) == "m4a_aac"@),
{
    reveal_strlit("mov_prores");
    reveal_strlit("mp4_h264_aac");
    reveal_strlit("wav");
    reveal_strlit("m4a_aac");
    assert("mov_prores"@[1] != "mp4_h264_aac"@[1]);
    assert("wav"@.len() != "m4a_aac"@.len());
}

// ---------------------------------------------------------------------------
// What the operations are for
// ---------------------------------------------------------------------------

/// A ranked list of qualities lists them tallest first, a quality of unknown
/// height after every quality of known height; among qualities of equal
/// height (both unknown included) the larger file comes first, a file of
/// unknown size after every file of known size.
pub proof fn law_ranking_is_tallest_then_largest(input: Seq<QualityView>, out: Seq<QualityView>)
    requires
        is_stable_ranking(input, out),
    ensures
        forall|i: int, j: int|
            0 <= i < j < out.len() ==> match (#[trigger] out[i].height, #[trigger] out[j].height) {
                (None, Some(_)) => false,
                (Some(x), Some(y)) => x >= y,
                _ => true,
            },
        forall|i: int, j: int|
            0 <= i < j < out.len() && #[trigger] out[i].height == #[trigger] out[j].height ==> match (
                out[i].filesize,
                out[j].filesize,
            ) {
                (None, Some(_)) => false,
                (Some(x), Some(y)) => x >= y,
                _ => true,
            },
{
    assert forall|i: int, j: int| 0 <= i < j < out.len() implies match (
        #[trigger] out[i].height,
        #[trigger] out[j].height,
    ) {
        (None, Some(_)) => false,
        (Some(x), Some(y)) => x >= y,
        _ => true,
    } by {
        assert(!ranks_above(out[j], out[i]));
    }
    assert forall|i: int, j: int|
        0 <= i < j < out.len() && #[trigger] out[i].height == #[trigger] out[j].height implies match (
            out[i].filesize,
            out[j].filesize,
        ) {
            (None, Some(_)) => false,
            (Some(x), Some(y)) => x >= y,
            _ => true,
        } by {
        assert(!ranks_above(out[j], out[i]));
    }
}

proof fn lemma_qualities_come_from_entries(es: Seq<FormatEntry>)
    ensures
        forall|k: int|
            0 <= k < qualities_from(es).len() ==> 0 <= #[trigger] qualities_from(es)[k].source_index
                < es.len() && quality_of(es[qualities_from(es)[k].source_index], qualities_from(es)[k].source_index)
                == Some(qualities_from(es)[k]),
    decreases es.len(),
{
    if es.len() > 0 {
        let prev = es.drop_last();
        lemma_qualities_come_from_entries(prev);
        assert forall|k: int| 0 <= k < qualities_from(es).len() implies 0
            <= #[trigger] qualities_from(es)[k].source_index < es.len() && quality_of(
            es[qualities_from(es)[k].source_index],
            qualities_from(es)[k].source_index,
        ) == Some(qualities_from(es)[k]) by {
            let q = qualities_from(es)[k];
            if k < qualities_from(prev).len() {
                assert(qualities_from(prev)[k] == q);
                assert(es[q.source_index] == prev[q.source_index]);
            } else {
                let last = es.len() - 1;
                assert(quality_of(es[last], last) == Some(q));
                assert(quality_of(es[last], last)->0.source_index == last);
            }
        }
    }
}

/// Each quality offered has audio exactly when the format entry it was made
/// from names an audio codec other than `none`; a quality with audio is
/// downloaded by its own id, one without by its id merged with the best
/// audio.
pub proof fn law_quality_audio_follows_entry(m: Metadata, k: int)
    requires
        0 <= k < metadata_qualities(m).len(),
    ensures
        ({
            let q = metadata_qualities(m)[k];
            let es = m.formats->0@;
            &&& m.formats is Some
            &&& 0 <= q.source_index < es.len()
            &&& es[q.source_index].format_id is Some && es[q.source_index].format_id->0@ == q.format_id
            &&& q.has_audio <==> (es[q.source_index].acodec is Some
                && es[q.source_index].acodec->0@ != "none"@)
            &&& q.has_audio ==> q.download_selector == q.format_id
            &&& !q.has_audio ==> q.download_selector == q.format_id + "+bestaudio/best"@
        }),
{
    let es = m.formats->0@;
    lemma_qualities_come_from_entries(es);
    let q = metadata_qualities(m)[k];
    assert(quality_of(es[q.source_index], q.source_index) == Some(q));
}

proof fn lemma_decimal_starts_with_digit(n: nat)
    ensures
        decimal(n).len() > 0,
        !is_white_space(decimal(n)[0]),
    decreases n,
{
    if n >= 10 {
        lemma_decimal_starts_with_digit(n / 10);
        assert(decimal(n)[0] == decimal(n / 10)[0]);
    } else {
        let d = digit_char(n);
        assert(d == '0' || d == '1' || d == '2' || d == '3' || d == '4' || d == '5' || d == '6'
            || d == '7' || d == '8' || d == '9');
    }
}

proof fn lemma_trim_keeps(s: Seq<char>)
    requires
        s.len() > 0,
        !is_white_space(s[0]),
        !is_white_space(s.last()),
    ensures
        trim_seq(s) == s,
{
    assert(trim_start_seq(s) == s);
    assert(trim_end_seq(s) == s);
}

/// The quality offered for a format entry carries the entry's id, height,
/// size, extension (also as its container) and codecs; it has audio exactly
/// when the entry names an audio codec other than `none`; one with audio is
/// downloaded by its own id, one without by its id merged with the best
/// audio; and its label reads `{height}p {fps}fps {note} ({id})`, with
/// ` + bestaudio` after it when the format has no audio (`?` for an unknown
/// height, the fps part empty when the entry reports none).
pub proof fn law_quality_fields_follow_entry(e: FormatEntry, i: int)
    requires
        quality_of(e, i) is Some,
    ensures
        ({
            let q = quality_of(e, i)->0;
            let id = e.format_id->0@;
            let audio = e.acodec is Some && e.acodec->0@ != "none"@;
            &&& e.format_id is Some
            &&& q.format_id == id
            &&& q.source_index == i
            &&& q.height == e.height
            &&& q.filesize == e.filesize
            &&& q.ext == opt_view(e.ext)
            &&& q.container == opt_view(e.ext)
            &&& q.vcodec == opt_view(e.vcodec)
            &&& q.acodec == opt_view(e.acodec)
            &&& q.has_audio == audio
            &&& q.download_selector == (if audio {
                id
            } else {
                id + "+bestaudio/best"@
            })
            &&& q.label == (match e.height {
                Some(h) => decimal(h as nat),
                None => "?"@,
            }) + "p "@ + (match e.fps_text {
                Some(f) => f@ + "fps"@,
                None => Seq::<char>::empty(),
            }) + " "@ + (match e.format_note {
                Some(n) => n@,
                None => Seq::<char>::empty(),
            }) + " ("@ + id + ")"@ + (if audio {
                Seq::<char>::empty()
            } else {
                " + bestaudio"@
            })
        }),
{
    let id = e.format_id->0@;
    let audio = e.acodec is Some && e.acodec->0@ != "none"@;
    let head = match e.height {
        Some(h) => decimal(h as nat),
        None => "?"@,
    };
    let tail: Seq<char> = if audio {
        Seq::<char>::empty()
    } else {
        " + bestaudio"@
    };
    let raw = head + "p "@ + (match e.fps_text {
        Some(f) => f@ + "fps"@,
        None => Seq::<char>::empty(),
    }) + " "@ + (match e.format_note {
        Some(n) => n@,
        None => Seq::<char>::empty(),
    }) + " ("@ + id + ")"@ + tail;
    reveal_strlit("?");
    reveal_strlit(")");
    reveal_strlit(" + bestaudio");
    match e.height {
        Some(h) => lemma_decimal_starts_with_digit(h as nat),
        None => {},
    }
    assert(head.len() > 0 && !is_white_space(head[0]));
    assert(raw[0] == head[0]);
    let before_tail = head + "p "@ + (match e.fps_text {
        Some(f) => f@ + "fps"@,
        None => Seq::<char>::empty(),
    }) + " "@ + (match e.format_note {
        Some(n) => n@,
        None => Seq::<char>::empty(),
    }) + " ("@ + id + ")"@;
    if audio {
        assert(tail.len() == 0);
        assert(raw =~= before_tail);
        assert(raw.last() == ')');
    } else {
        assert(raw.last() == tail.last());
        assert(tail.last() == 'o');
    }
    lemma_trim_keeps(raw);
    assert(crate::inspect::raw_label(e, id, audio) =~= raw);
}

/// The format entries that offer no quality: those without an id, and those
/// whose codecs say they have neither video nor audio; every other entry is
/// offered.
pub proof fn law_which_entries_are_offered(e: FormatEntry, i: int)
    ensures
        (quality_of(e, i) is None) <==> (e.format_id is None || (e.vcodec is Some && e.vcodec->0@
            == "none"@ && !(e.acodec is Some && e.acodec->0@ != "none"@))),
{
}

proof fn lemma_classification_words()
    ensures
        "friendly"@ != "unfriendly"@,
        "friendly"@ != "unknown"@,
        "unfriendly"@ != "unknown"@,
{
    reveal_strlit("friendly");
    reveal_strlit("unfriendly");
    reveal_strlit("unknown");
    assert("friendly"@[0] != "unfriendly"@[0]);
    assert("friendly"@[0] != "unknown"@[0]);
    assert("unfriendly"@.len() != "unknown"@.len());
}

/// The editing-friendly codecs are exactly `h264`, `avc1`, `mpeg4` and
/// `prores` for video and `aac`, `mp3`, `pcm_s16le` and `pcm_f32le` for
/// audio: outside a `mov` container a source is friendly exactly when both
/// its codecs are among them, and a `mov` container is always friendly.
pub proof fn law_friendly_codecs(video: Seq<char>, audio: Seq<char>, container: Seq<char>)
    ensures
        container == "mov"@ ==> classification(video, audio, container) == "friendly"@,
        container != "mov"@ ==> ((classification(video, audio, container) == "friendly"@) <==> (
        (video == "h264"@ || video == "avc1"@ || video == "mpeg4"@ || video == "prores"@) && (audio
            == "aac"@ || audio == "mp3"@ || audio == "pcm_s16le"@ || audio == "pcm_f32le"@))),
{
    lemma_classification_words();
}

/// Outside the friendly cases, a source with a `vp9`, `av1`, `hevc` or `h265`
/// video codec, an `opus` or `vorbis` audio codec, or a `webm` container is
/// unfriendly, and any other source is unknown.
pub proof fn law_unfriendly_codecs(video: Seq<char>, audio: Seq<char>, container: Seq<char>)
    requires
        classification(video, audio, container) != "friendly"@,
    ensures
        (classification(video, audio, container) == "unfriendly"@) <==> (video == "vp9"@ || video
            == "av1"@ || video == "hevc"@ || video == "h265"@ || audio == "opus"@ || audio
            == "vorbis"@ || container == "webm"@),
        classification(video, audio, container) == "unfriendly"@ || classification(
            video,
            audio,
            container,
        ) == "unknown"@,
{
    lemma_classification_words();
}

/// What each kind of downloader line does to the phase and the message: a
/// progress report, a download notice or a destination line means the
/// download is under way; post-processing means processing; an error means
/// failed; warnings, captured paths and other lines leave the phase alone.
/// Every line but a captured path becomes the last message.
pub proof fn law_line_phases(s: TaskView, kind: LineKind, line: Seq<char>)
    ensures
        (kind is Progress || kind is DownloadNotice || kind is Destination) ==> after_line(
            s,
            kind,
            line,
        ).phase == TaskPhase::Downloading,
        kind is PostProcessing ==> after_line(s, kind, line).phase == TaskPhase::Processing,
        kind is Error ==> after_line(s, kind, line).phase == TaskPhase::Failed && after_line(
            s,
            kind,
            line,
        ).error == Some(line),
        (kind is Warning || kind is OutputPath || kind is Other) ==> after_line(s, kind, line).phase
            == s.phase,
        !(kind is OutputPath) ==> after_line(s, kind, line).last_message == Some(line),
        kind matches LineKind::Progress { eta, .. } ==> after_line(s, kind, line).eta == eta,
{
}

/// A line that matches the progress pattern, or that mentions `[download]`,
/// puts the task in the downloading phase with that line as its message.
pub proof fn law_download_lines_mean_downloading(s: TaskView, line: Seq<char>)
    requires
        regex_groups(PROGRESS_PATTERN@, line) is Some || contains_seq(line, "[download]"@),
    ensures
        after_line(s, line_kind(line), line).phase == TaskPhase::Downloading,
        after_line(s, line_kind(line), line).last_message == Some(line),
{
}

/// The subtitle options list every manual track, then every automatic one,
/// in the metadata's order, each under its track's own language key and
/// its kind.
pub proof fn law_subtitle_options_follow_tracks(m: Metadata)
    ensures
        ({
            let manual: Seq<SubtitleTrack> = match m.subtitles {
                Some(t) => t@,
                None => Seq::empty(),
            };
            let auto: Seq<SubtitleTrack> = match m.automatic_captions {
                Some(t) => t@,
                None => Seq::empty(),
            };
            let out = metadata_subtitles(m);
            &&& out.len() == manual.len() + auto.len()
            &&& forall|i: int|
                0 <= i < manual.len() ==> (#[trigger] out[i]).language == manual[i].language@
                    && out[i].kind == "manual"@
            &&& forall|j: int|
                0 <= j < auto.len() ==> (#[trigger] out[manual.len() + j]).language
                    == auto[j].language@ && out[manual.len() + j].kind == "auto"@
        }),
{
    let manual: Seq<SubtitleTrack> = match m.subtitles {
        Some(t) => t@,
        None => Seq::empty(),
    };
    let auto: Seq<SubtitleTrack> = match m.automatic_captions {
        Some(t) => t@,
        None => Seq::empty(),
    };
    let out = metadata_subtitles(m);
    assert forall|j: int| 0 <= j < auto.len() implies (#[trigger] out[manual.len() + j]).language
        == auto[j].language@ && out[manual.len() + j].kind == "auto"@ by {
        assert(out[manual.len() + j] == crate::inspect::group_options(
            m.automatic_captions,
            "auto"@,
        )[j]);
    }
}

proof fn lemma_profile_names()
    ensures
        "mp4_h264_aac"@ != "mov_prores"@,
        "mp4_h264_aac"@ != "m4a_aac"@,
        "mp4_h264_aac"@ != "wav"@,
        "mov_prores"@ != "m4a_aac"@,
        "mov_prores"@ != "wav"@,
        "m4a_aac"@ != "wav"@,
{
    reveal_strlit("mp4_h264_aac");
    reveal_strlit("mov_prores");
    reveal_strlit("m4a_aac");
    reveal_strlit("wav");
    assert("mp4_h264_aac"@[1] != "mov_prores"@[1]);
    assert("mp4_h264_aac"@.len() != "m4a_aac"@.len());
    assert("mp4_h264_aac"@.len() != "wav"@.len());
    assert("mov_prores"@.len() != "m4a_aac"@.len());
    assert("mov_prores"@.len() != "wav"@.len());
    assert("m4a_aac"@.len() != "wav"@.len());
}

/// The ffmpeg commands: exactly the profiles `mp4_h264_aac`, `mov_prores`,
/// `m4a_aac` and `wav` have one; each overwrites without asking, reads the
/// input first and writes the output last; the audio profiles drop the
/// picture and the video profiles keep it; the audio is AAC for
/// `mp4_h264_aac` and `m4a_aac` and 16-bit PCM for `mov_prores` and `wav`;
/// the video is H.264 for `mp4_h264_aac` and ProRes for `mov_prores`.
pub proof fn law_ffmpeg_commands(profile: Seq<char>, input: Seq<char>, output: Seq<char>)
    ensures
        (ffmpeg_args(profile, input, output) is Some) <==> (profile == "mp4_h264_aac"@ || profile
            == "mov_prores"@ || profile == "m4a_aac"@ || profile == "wav"@),
        ffmpeg_args(profile, input, output) matches Some(a) ==> a.len() > 4 && a[0] == "-y"@ && a[1]
            == "-i"@ && a[2] == input && a.last() == output && (a[3] == "-vn"@ <==> (profile
            == "m4a_aac"@ || profile == "wav"@)) && (a[3] == "-c:v"@ <==> (profile
            == "mp4_h264_aac"@ || profile == "mov_prores"@)),
        profile == "mp4_h264_aac"@ ==> (ffmpeg_args(profile, input, output) matches Some(a) && a[4]
            == "libx264"@ && a.contains("aac"@)),
        profile == "mov_prores"@ ==> (ffmpeg_args(profile, input, output) matches Some(a) && a[4]
            == "prores_ks"@ && a.contains("pcm_s16le"@)),
        profile == "m4a_aac"@ ==> (ffmpeg_args(profile, input, output) matches Some(a) && a[5]
            == "aac"@),
        profile == "wav"@ ==> (ffmpeg_args(profile, input, output) matches Some(a) && a[5]
            == "pcm_s16le"@),
{
    lemma_profile_names();
    reveal_strlit("-vn");
    reveal_strlit("-c:v");
    assert("-vn"@[1] != "-c:v"@[1]);
    if profile == "mp4_h264_aac"@ {
        let a = ffmpeg_args(profile, input, output)->0;
        assert(a[10] == "aac"@);
    }
    if profile == "mov_prores"@ {
        let a = ffmpeg_args(profile, input, output)->0;
        assert(a[8] == "pcm_s16le"@);
    }
}

/// The converted file's extension follows its profile: `mp4` for
/// `mp4_h264_aac`, `mov` for `mov_prores`, `m4a` for `m4a_aac`, `wav` for
/// `wav`, and `mp4` for any other profile.
pub proof fn law_target_extensions(profile: Seq<char>)
    ensures
        target_extension("mp4_h264_aac"@) == "mp4"@,
        target_extension("mov_prores"@) == "mov"@,
        target_extension("m4a_aac"@) == "m4a"@,
        target_extension("wav"@) == "wav"@,
        !(profile == "mp4_h264_aac"@ || profile == "mov_prores"@ || profile == "m4a_aac"@ || profile
            == "wav"@) ==> target_extension(profile) == "mp4"@,
{
    lemma_profile_names();
}

/// The downloader's command line for a pass: line-by-line progress, no
/// playlist, the final path printed, the output directory, the pass's file
/// name template and stream selector; then, when subtitle languages are
/// asked for, subtitles written in those languages joined by commas (and in
/// the asked format, if any); and the URL last.
pub proof fn law_downloader_command(req: DownloadRequest, dir: Seq<char>, pass: PassView)
    ensures
        ({
            let a = ytdlp_args(req, dir, pass);
            let langs = views(req.subtitle_langs@);
            &&& a.len() == 11 + (if langs.len() == 0 {
                0int
            } else if req.subtitle_format is Some {
                6int
            } else {
                4int
            })
            &&& a.subrange(0, 10) == seq![
                "--newline"@,
                "--no-playlist"@,
                "--print"@,
                "after_move:filepath"@,
                "-P"@,
                dir,
                "-o"@,
                output_template(pass.output_suffix),
                "-f"@,
                pass.format_selector,
            ]
            &&& a.last() == req.url@
            &&& langs.len() > 0 ==> a[10] == "--write-subs"@ && a[11] == "--write-auto-subs"@
                && a[12] == "--sub-langs"@ && a[13] == join_seq(langs, ","@)
            &&& langs.len() > 0 && req.subtitle_format is Some ==> a[14] == "--sub-format"@ && a[15]
                == req.subtitle_format->0@
        }),
{
    let a = ytdlp_args(req, dir, pass);
    assert(a.subrange(0, 10) =~= seq![
        "--newline"@,
        "--no-playlist"@,
        "--print"@,
        "after_move:filepath"@,
        "-P"@,
        dir,
        "-o"@,
        output_template(pass.output_suffix),
        "-f"@,
        pass.format_selector,
    ]);
}

/// The stream selectors of the passes: a merged download takes the chosen
/// format, else the best video and audio; a split download takes for video
/// the chosen format when it is video-only, else the best video no taller
/// than the chosen height, and for audio the best audio.
pub proof fn law_pass_selectors(req: DownloadRequest)
    ensures
        !wants_split(req) ==> (natural_plan(req) matches Ok(ps) && ps[0].label == "merged"@
            && ps[0].format_selector == (match req.format_id {
            Some(f) => f@,
            None => "bestvideo+bestaudio/best"@,
        })),
        wants_split(req) && wants_video(req) ==> (natural_plan(req) matches Ok(ps) && ps[0].label
            == "video"@ && ps[0].format_selector == (if req.quality_has_audio == Some(false) {
            match req.format_id {
                Some(f) => f@,
                None => "bestvideo"@,
            }
        } else {
            match req.quality_height {
                Some(h) => "bestvideo[height<="@ + decimal(h as nat) + "]/bestvideo"@,
                None => "bestvideo"@,
            }
        })),
        wants_split(req) && wants_audio(req) ==> (natural_plan(req) matches Ok(ps) && ps.last().label
            == "audio"@ && ps.last().format_selector == "bestaudio/best"@),
        req.split_mode is None ==> !wants_split(req),
        req.split_video is None ==> wants_video(req),
        req.split_audio is None ==> wants_audio(req),
{
}

/// Exactly `natural`, `converted` and `both` are accepted output modes; any
/// other normalized mode is refused and named in the error.
pub proof fn law_plan_modes(req: DownloadRequest, mode: Seq<char>)
    ensures
        (mode == "natural"@ || mode == "converted"@ || mode == "both"@) ==> plan_for_mode(req, mode)
            == natural_plan(req),
        !(mode == "natural"@ || mode == "converted"@ || mode == "both"@) ==> plan_for_mode(req, mode)
            == Err::<Seq<PassView>, PlanErrorView>(PlanErrorView::UnsupportedOutputMode(mode)),
{
}

proof fn lemma_present_exts(entries: Seq<Option<String>>)
    ensures
        present_exts(entries) == entries.filter_map(
            |o: Option<String>|
                match o {
                    Some(e) => Some(e@),
                    None => None,
                },
        ),
    decreases entries.len(),
{
    if entries.len() > 0 {
        lemma_present_exts(entries.drop_last());
        let f = |o: Option<String>|
            match o {
                Some(e) => Some(e@),
                None => None,
            };
        match entries.last() {
            Some(e) => {
                assert(entries.drop_last().filter_map(f) + seq![e@] =~= entries.drop_last().filter_map(
                    f,
                ).push(e@));
            },
            None => {},
        }
    }
}

/// The formats of each subtitle option are the `ext` values its track lists,
/// in order, skipping items without one; a track whose entry is no list
/// offers none.
pub proof fn law_subtitle_formats(m: Metadata, i: int)
    requires
        0 <= i < metadata_subtitles(m).len(),
    ensures
        ({
            let manual: Seq<SubtitleTrack> = match m.subtitles {
                Some(t) => t@,
                None => Seq::empty(),
            };
            let auto: Seq<SubtitleTrack> = match m.automatic_captions {
                Some(t) => t@,
                None => Seq::empty(),
            };
            let track = if i < manual.len() {
                manual[i]
            } else {
                auto[i - manual.len()]
            };
            metadata_subtitles(m)[i].formats == match track.entries {
                Some(e) => e@.filter_map(
                    |o: Option<String>|
                        match o {
                            Some(x) => Some(x@),
                            None => None,
                        },
                ),
                None => Seq::empty(),
            }
        }),
{
    let manual: Seq<SubtitleTrack> = match m.subtitles {
        Some(t) => t@,
        None => Seq::empty(),
    };
    let auto: Seq<SubtitleTrack> = match m.automatic_captions {
        Some(t) => t@,
        None => Seq::empty(),
    };
    let g1 = crate::inspect::group_options(m.subtitles, "manual"@);
    let g2 = crate::inspect::group_options(m.automatic_captions, "auto"@);
    let track = if i < manual.len() {
        manual[i]
    } else {
        assert(metadata_subtitles(m)[i] == g2[i - g1.len()]);
        auto[i - manual.len()]
    };
    match track.entries {
        Some(e) => lemma_present_exts(e@),
        None => {},
    }
}

/// What the inspection response takes from the first ranked quality: the
/// default format is its download selector, and the reported codecs,
/// container and audio flag are its own.
pub proof fn law_response_follows_best_quality(q: QualityView)
    ensures
        leading_fields(Some(q)).0 == Some(q.download_selector),
        leading_fields(Some(q)).1 == q.vcodec,
        leading_fields(Some(q)).2 == q.acodec,
        leading_fields(Some(q)).3 == q.container,
        summary_of(q).vcodec == q.vcodec && summary_of(q).acodec == q.acodec
            && summary_of(q).container == q.container && summary_of(q).has_audio == q.has_audio,
{
}

/// The downloader to run: a `YTDLP_PATH` setting that is not blank wins;
/// otherwise the first local installation that exists, `.venv` beside the
/// server before the one a directory up; otherwise `yt-dlp` from the path.
pub proof fn law_ytdlp_choice(env_value: Option<Seq<char>>, exists: Seq<bool>)
    ensures
        (env_value matches Some(v) && trim_seq(v).len() > 0) ==> ytdlp_choice(env_value, exists)
            == env_value->0,
        !(env_value matches Some(v) && trim_seq(v).len() > 0) ==> ytdlp_choice(env_value, exists)
            == (if exists.len() > 0 && exists[0] {
            ".venv/Scripts/yt-dlp.exe"@
        } else if exists.len() > 1 && exists[1] {
            "../.venv/Scripts/yt-dlp.exe"@
        } else {
            "yt-dlp"@
        }),
{
    reveal_with_fuel(crate::tools::first_existing, 3);
}

/// The converter to run: the setting when there is one (its `ffmpeg.exe`
/// when it is a directory), else the package manager's installation when it
/// exists, else `ffmpeg` from the path.
pub proof fn law_ffmpeg_choice(setting: Option<Seq<char>>, is_dir: bool, winget: Option<Seq<char>>)
    ensures
        (setting is Some && !is_dir) ==> ffmpeg_choice(setting, is_dir, winget) == setting->0,
        (setting is Some && is_dir) ==> ffmpeg_choice(setting, is_dir, winget) == path_joined(
            setting->0,
            "ffmpeg.exe"@,
        ),
        (setting is None && winget is Some) ==> ffmpeg_choice(setting, is_dir, winget) == winget->0,
        (setting is None && winget is None) ==> ffmpeg_choice(setting, is_dir, winget)
            == "ffmpeg"@,
{
}

/// The messages the lifecycle reports: a run prepares the downloader, or
/// reports a cancellation seen before the start; each pass announces its
/// start and its completion; a finished run reports completion; a refused
/// downloader reports its exit.
pub proof fn law_lifecycle_messages(s: TaskView, label: Seq<char>, text: Seq<char>)
    ensures
        !s.cancel_requested ==> after_begin(s).last_message == Some("Preparing yt-dlp command"@),
        s.cancel_requested ==> after_begin(s).last_message == Some(
            "Cancelled before process start"@,
        ),
        after_pass_start(s, label).last_message == Some("Starting "@ + label + " download pass"@),
        after_pass_exit(s, label, true, text).last_message == Some(
            label + " download pass completed"@,
        ),
        after_pass_exit(s, label, true, text).phase == TaskPhase::Processing,
        after_completion(s).last_message == Some("Download completed"@),
        after_completion(s).phase == TaskPhase::Completed,
        after_pass_cancelled(s).last_message == Some("Download cancelled by user"@),
        after_pass_cancelled(s).phase == TaskPhase::Cancelled,
        after_tool_failure(s, "ffmpeg"@, text).error == Some("ffmpeg exited with status: "@ + text),
{
    reveal_strlit("ffmpeg");
    reveal_strlit(" exited with status: ");
    reveal_strlit("ffmpeg exited with status: ");
    assert("ffmpeg"@ + " exited with status: "@ =~= "ffmpeg exited with status: "@);
    assert("ffmpeg"@ + " exited with status: "@ + text =~= "ffmpeg exited with status: "@ + text);
}

} // verus!
