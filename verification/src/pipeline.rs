//! The conversion step that may follow a download pass, and its effect on a
//! task.

use vstd::prelude::*;
use crate::text::{cat, owned, trim, trim_seq, views};
use crate::request::{
    chosen_profile, conversion_profile_for, explicit_conversion, keeps_natural,
    keeps_natural_output, should_run_explicit_conversion, DownloadRequest,
};
use crate::task::{with_state, TaskPhase, TaskState, TaskStatus, TaskView};
use crate::output::{add_path, with_path};

verus! {

/// A conversion to run after a download pass.
pub struct ConversionJob {
    /// The downloaded file to convert.
    pub source_path: String,
    /// The conversion profile.
    pub profile: String,
    /// Whether the downloaded file is kept beside its converted copy.
    pub keep_source: bool,
}

/// The conversion to run after a successful pass, if any: when the request
/// asks for converted output and the pass captured a file, that file is
/// converted with the request's profile.
pub open spec fn conversion_after_pass(s: TaskView, req: DownloadRequest) -> Option<(
    Seq<char>,
    Seq<char>,
    bool,
)> {
    if explicit_conversion(req) {
        match s.pass_output {
            Some(p) => Some((p, chosen_profile(req), keeps_natural(req))),
            None => None,
        }
    } else {
        None
    }
}

/// `paths` without any occurrence of `x`.
pub open spec fn without_path(paths: Seq<Seq<char>>, x: Seq<char>) -> Seq<Seq<char>>
    decreases paths.len(),
{
    if paths.len() == 0 {
        Seq::empty()
    } else if paths.last() == x {
        without_path(paths.drop_last(), x)
    } else {
        without_path(paths.drop_last(), x).push(paths.last())
    }
}

/// The output paths after a successful conversion of `source` into
/// `converted`: unless the source is kept, it leaves the list; the converted
/// file joins it at the end, once.
pub open spec fn paths_after_conversion(
    paths: Seq<Seq<char>>,
    source: Seq<char>,
    converted: Seq<char>,
    keep_source: bool,
) -> Seq<Seq<char>> {
    with_path(if keep_source { paths } else { without_path(paths, source) }, converted)
}

/// The state after a successful conversion of the pass's file `source` into
/// `converted` with `profile`: the output paths as
/// [`paths_after_conversion`] gives them; the output path unchanged when the
/// source is kept, else the first listed path (the first file captured that
/// is still there); and the converted file the pass's output.
pub open spec fn after_conversion(
    s: TaskView,
    source: Seq<char>,
    converted: Seq<char>,
    keep_source: bool,
    profile: Seq<char>,
) -> TaskView {
    let paths = paths_after_conversion(s.output_paths, source, converted, keep_source);
    TaskView {
        output_paths: paths,
        output_path: if keep_source && s.output_path is Some {
            s.output_path
        } else {
            Some(paths[0])
        },
        pass_output: Some(converted),
        last_message: Some("ffmpeg conversion completed using profile "@ + profile),
        ..s
    }
}

/// The state after a line of ffmpeg's diagnostics: blank lines are skipped.
pub open spec fn after_conversion_note(s: TaskView, line: Seq<char>) -> TaskView {
    if trim_seq(line).len() == 0 {
        s
    } else {
        TaskView { phase: TaskPhase::Processing, last_message: Some(line), ..s }
    }
}

/// The state when ffmpeg is started with `profile`.
pub open spec fn after_conversion_start(s: TaskView, profile: Seq<char>) -> TaskView {
    TaskView {
        phase: TaskPhase::Processing,
        last_message: Some("Starting ffmpeg conversion with profile "@ + profile),
        ..s
    }
}

/// The state after ffmpeg was stopped at the user's request; a final status
/// is kept.
pub open spec fn after_conversion_cancelled(s: TaskView) -> TaskView {
    with_state(s, TaskStatus::Cancelled, TaskPhase::Cancelled, "Conversion cancelled by user"@)
}

/// The paths of `paths` other than `x`, in order.
fn retain_other(paths: &Vec<String>, x: &String) -> (res: Vec<String>)
    ensures
        views(res@) == without_path(views(paths@), x@),
{
    let mut out: Vec<String> = Vec::new();
    let n = paths.len();
    let mut i: usize = 0;
    assert(views(paths@).subrange(0, 0) =~= Seq::<Seq<char>>::empty());
    assert(views(out@) =~= without_path(views(paths@).subrange(0, 0), x@));
    while i < n
        invariant
            n == paths.len(),
            i <= n,
            views(out@) == without_path(views(paths@).subrange(0, i as int), x@),
        decreases n - i,
    {
        let ghost before = views(paths@).subrange(0, i as int);
        let ghost after = views(paths@).subrange(0, i + 1);
        assert(after.drop_last() =~= before);
        assert(after.last() == paths@[i as int]@);
        if paths[i] != *x {
            let ghost prev = out@;
            out.push(paths[i].clone());
            assert(views(out@) =~= views(prev).push(paths@[i as int]@));
        }
        i = i + 1;
    }
    assert(views(paths@).subrange(0, n as int) =~= views(paths@));
    out
}

impl TaskState {
    /// The conversion to run after a successful pass of `req`, if any.
    pub fn conversion_job(&self, req: &DownloadRequest) -> (res: Option<ConversionJob>)
        ensures
            match res {
                Some(job) => conversion_after_pass(self@, *req) == Some(
                    (job.source_path@, job.profile@, job.keep_source),
                ),
                None => conversion_after_pass(self@, *req) is None,
            },
    {
        if !should_run_explicit_conversion(req) {
            return None;
        }
        match &self.pass_output {
            Some(p) => Some(
                ConversionJob {
                    source_path: p.clone(),
                    profile: conversion_profile_for(req),
                    keep_source: keeps_natural_output(req),
                },
            ),
            None => None,
        }
    }

    /// Records that ffmpeg is being started with `profile`.
    pub fn mark_conversion_starting(&mut self, profile: &str)
        ensures
            final(self)@ == after_conversion_start(old(self)@, profile@),
    {
        self.phase = TaskPhase::Processing;
        self.last_message = Some(cat("Starting ffmpeg conversion with profile ", profile));
    }

    /// Reads one line of ffmpeg's diagnostics; returns whether it changed the
    /// task (blank lines do not).
    pub fn note_conversion_output(&mut self, line: &str) -> (changed: bool)
        ensures
            changed == (trim_seq(line@).len() > 0),
            final(self)@ == after_conversion_note(old(self)@, line@),
    {
        let t = trim(line);
        if t.unicode_len() == 0 {
            return false;
        }
        self.phase = TaskPhase::Processing;
        self.last_message = Some(owned(line));
        true
    }

    /// Records that ffmpeg was stopped at the user's request.
    pub fn mark_conversion_cancelled(&mut self)
        ensures
            final(self)@ == after_conversion_cancelled(old(self)@),
    {
        if !self.status.is_terminal() {
            self.status = TaskStatus::Cancelled;
        }
        self.phase = TaskPhase::Cancelled;
        self.last_message = Some(owned("Conversion cancelled by user"));
    }

    /// Records a successful conversion of the pass's file `source` into
    /// `converted` with `profile`; returns whether the source file is to be
    /// deleted, which it is when it is not kept.
    pub fn apply_conversion_success(
        &mut self,
        source: &str,
        converted: &str,
        keep_source: bool,
        profile: &str,
    ) -> (delete_source: bool)
        ensures
            delete_source == !keep_source,
            final(self)@ == after_conversion(old(self)@, source@, converted@, keep_source, profile@),
    {
        if !keep_source {
            let source_path = owned(source);
            let kept = retain_other(&self.output_paths, &source_path);
            self.output_paths = kept;
        }
        let converted_path = owned(converted);
        let ghost before = views(self.output_paths@);
        add_path(&mut self.output_paths, converted_path.clone());
        proof {
            let after = views(self.output_paths@);
            if before.contains(converted@) {
                let k = choose|k: int| 0 <= k < before.len() && before[k] == converted@;
                assert(after[k] == converted@);
            } else {
                assert(after[before.len() as int] == converted@);
            }
            assert(after.len() == self.output_paths@.len());
            assert(self.output_paths@.len() > 0);
        }
        if !(keep_source && self.output_path.is_some()) {
            let first = self.output_paths[0].clone();
            self.output_path = Some(first);
        }
        self.pass_output = Some(converted_path);
        self.last_message = Some(cat("ffmpeg conversion completed using profile ", profile));
        !keep_source
    }
}

} // verus!
