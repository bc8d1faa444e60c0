//! Reading the downloader's output lines, and what each line does to a task.

use vstd::prelude::*;
use crate::text::{
    contains, contains_seq, opt_view, owned, split_once, split_once_seq, starts_with,
    starts_with_seq, trim, trim_char, trim_char_seq, trim_seq, trim_start, trim_start_seq, views,
};
use crate::task::{settled, TaskPhase, TaskState, TaskStatus, TaskView};

verus! {

/// The pattern of a progress line: `[download]`, in any case, then a
/// percentage, and, when the line reports one further on, `ETA` and the time
/// left.
pub const PROGRESS_PATTERN: &'static str = "(?i)\\[download\\].*?(\\d+(?:\\.\\d+)?)%(?:.*?ETA\\s+([^\\s]+))?";

/// The pattern of a file path: a drive letter path or an absolute path.
pub const PATH_PATTERN: &'static str = "([A-Za-z]:[\\\\/][^\"\\r\\n]+|/[^\"\\r\\n]+)";

/// What the `regex` crate gives for `pattern` searched in `text`: `None`
/// when the pattern does not compile or does not match; otherwise the groups
/// of the leftmost-first match, group 0 being the whole match and a group
/// that took no part being `None`.
pub uninterp spec fn regex_groups(pattern: Seq<char>, text: Seq<char>) -> Option<
    Seq<Option<Seq<char>>>,
>;

/// The view of a list of capture groups.
pub open spec fn groups_view(g: Option<Vec<Option<String>>>) -> Option<Seq<Option<Seq<char>>>> {
    match g {
        Some(v) => Some(v@.map_values(|o: Option<String>| opt_view(o))),
        None => None,
    }
}

/// Calls `Regex::new` and `Regex::captures`. Trusted to return the capture
/// groups named `regex_groups`; nothing more is claimed of them.
#[verifier::external_body]
fn regex_captures(pattern: &str, text: &str) -> (res: Option<Vec<Option<String>>>)
    ensures
        groups_view(res) == regex_groups(pattern@, text@),
{
    let re = regex::Regex::new(pattern).ok()?;
    let caps = re.captures(text)?;
    Some(caps.iter().map(|m| m.map(|m| m.as_str().to_string())).collect())
}

/// The group `i` of a match, `None` when there is no such group.
pub open spec fn group_at(g: Seq<Option<Seq<char>>>, i: int) -> Option<Seq<char>> {
    if 0 <= i < g.len() {
        g[i]
    } else {
        None
    }
}

/// The group `i` of a match.
fn group(groups: &Vec<Option<String>>, i: usize) -> (res: Option<String>)
    ensures
        opt_view(res) == group_at(groups@.map_values(|o: Option<String>| opt_view(o)), i as int),
{
    if i < groups.len() {
        match &groups[i] {
            Some(s) => Some(s.clone()),
            None => None,
        }
    } else {
        None
    }
}

// ---------------------------------------------------------------------------
// Output paths
// ---------------------------------------------------------------------------

/// A line with surrounding white space, then quotes, then parentheses
/// stripped.
pub open spec fn stripped_line(line: Seq<char>) -> Seq<char> {
    trim_char_seq(trim_char_seq(trim_char_seq(trim_seq(line), '"'), '('), ')')
}

/// The path named by a set of path-pattern groups: group 1 without quotes.
pub open spec fn path_of_groups(g: Option<Seq<Option<Seq<char>>>>) -> Option<Seq<char>> {
    match g {
        Some(groups) => match group_at(groups, 1) {
            Some(p) => Some(trim_char_seq(p, '"')),
            None => None,
        },
        None => None,
    }
}

/// The file path a downloader line names, if any: the text after
/// `Destination:`, else the first drive-letter or absolute path in it.
pub open spec fn output_path_of(line: Seq<char>) -> Option<Seq<char>> {
    let t = stripped_line(line);
    if t.len() == 0 {
        None
    } else {
        match split_once_seq(t, "Destination:"@) {
            Some(parts) if trim_seq(parts.1).len() > 0 => Some(trim_char_seq(trim_seq(parts.1), '"')),
            _ => path_of_groups(regex_groups(PATH_PATTERN@, t)),
        }
    }
}

/// The path named by the groups the path pattern matched: group 1, without
/// quotes.
pub fn path_from_groups(groups: Option<Vec<Option<String>>>) -> (res: Option<String>)
    ensures
        opt_view(res) == path_of_groups(groups_view(groups)),
{
    match groups {
        Some(g) => match group(&g, 1) {
            Some(p) => Some(trim_char(p.as_str(), '"')),
            None => None,
        },
        None => None,
    }
}

/// The file path a downloader line names, if any.
pub fn extract_output_path(line: &str) -> (res: Option<String>)
    ensures
        opt_view(res) == output_path_of(line@),
{
    let a = trim(line);
    let b = trim_char(a.as_str(), '"');
    let c = trim_char(b.as_str(), '(');
    let t = trim_char(c.as_str(), ')');
    if t.unicode_len() == 0 {
        return None;
    }
    match split_once(t.as_str(), "Destination:") {
        Some((_, value)) => {
            let v = trim(value.as_str());
            if v.unicode_len() > 0 {
                return Some(trim_char(v.as_str(), '"'));
            }
        },
        None => {},
    }
    let groups = regex_captures(PATH_PATTERN, t.as_str());
    path_from_groups(groups)
}

// ---------------------------------------------------------------------------
// Classifying lines
// ---------------------------------------------------------------------------

/// What a downloader line reports.
pub enum OutputLine {
    /// A progress report: the percentage and the time left, as written.
    Progress { percent: Option<String>, eta: Option<String> },
    /// Any other line about the download.
    DownloadNotice,
    /// Merging, extracting, fixing or deleting after the download.
    PostProcessing,
    /// The file the download writes to.
    Destination,
    /// A warning.
    Warning,
    /// An error.
    Error,
    /// The final path of a produced file.
    OutputPath(String),
    /// Anything else.
    Other,
}

/// The mathematical content of an [`OutputLine`].
pub enum LineKind {
    Progress { percent: Option<Seq<char>>, eta: Option<Seq<char>> },
    DownloadNotice,
    PostProcessing,
    Destination,
    Warning,
    Error,
    OutputPath(Seq<char>),
    Other,
}

impl View for OutputLine {
    type V = LineKind;

    open spec fn view(&self) -> LineKind {
        match self {
            OutputLine::Progress { percent, eta } => LineKind::Progress {
                percent: opt_view(*percent),
                eta: opt_view(*eta),
            },
            OutputLine::DownloadNotice => LineKind::DownloadNotice,
            OutputLine::PostProcessing => LineKind::PostProcessing,
            OutputLine::Destination => LineKind::Destination,
            OutputLine::Warning => LineKind::Warning,
            OutputLine::Error => LineKind::Error,
            OutputLine::OutputPath(p) => LineKind::OutputPath(p@),
            OutputLine::Other => LineKind::Other,
        }
    }
}

/// Whether a line reports post-processing.
pub open spec fn is_post_processing(line: Seq<char>) -> bool {
    contains_seq(line, "[Merger]"@) || contains_seq(line, "Merging"@) || contains_seq(
        line,
        "[ExtractAudio]"@,
    ) || contains_seq(line, "Fixing"@) || contains_seq(line, "Deleting original file"@)
}

/// What a line that is no progress report reports; the first test that
/// holds decides.
pub open spec fn unmatched_line_kind(line: Seq<char>) -> LineKind {
    if contains_seq(line, "[download]"@) {
        LineKind::DownloadNotice
    } else if is_post_processing(line) {
        LineKind::PostProcessing
    } else if contains_seq(line, "Destination:"@) {
        LineKind::Destination
    } else if starts_with_seq(trim_start_seq(line), "WARNING:"@) {
        LineKind::Warning
    } else if contains_seq(line, "ERROR:"@) {
        LineKind::Error
    } else {
        match output_path_of(line) {
            Some(p) => LineKind::OutputPath(p),
            None => LineKind::Other,
        }
    }
}

/// The progress report of a line the progress pattern matched.
pub open spec fn progress_kind(g: Seq<Option<Seq<char>>>) -> LineKind {
    LineKind::Progress { percent: group_at(g, 1), eta: group_at(g, 2) }
}

/// What a downloader line reports.
pub open spec fn line_kind(line: Seq<char>) -> LineKind {
    match regex_groups(PROGRESS_PATTERN@, line) {
        Some(g) => progress_kind(g),
        None => unmatched_line_kind(line),
    }
}

/// The progress report of a line whose progress-pattern groups are given.
pub fn progress_report(groups: &Vec<Option<String>>) -> (res: OutputLine)
    ensures
        res@ == progress_kind(groups@.map_values(|o: Option<String>| opt_view(o))),
{
    OutputLine::Progress { percent: group(groups, 1), eta: group(groups, 2) }
}

/// What a line that is no progress report reports.
pub fn classify_unmatched_line(line: &str) -> (res: OutputLine)
    ensures
        res@ == unmatched_line_kind(line@),
{
    if contains(line, "[download]") {
        return OutputLine::DownloadNotice;
    }
    if contains(line, "[Merger]") || contains(line, "Merging") || contains(line, "[ExtractAudio]")
        || contains(line, "Fixing") || contains(line, "Deleting original file") {
        return OutputLine::PostProcessing;
    }
    if contains(line, "Destination:") {
        return OutputLine::Destination;
    }
    let lead = trim_start(line);
    if starts_with(lead.as_str(), "WARNING:") {
        return OutputLine::Warning;
    }
    if contains(line, "ERROR:") {
        return OutputLine::Error;
    }
    match extract_output_path(line) {
        Some(p) => OutputLine::OutputPath(p),
        None => OutputLine::Other,
    }
}

/// What a downloader line reports.
pub fn classify_output_line(line: &str) -> (res: OutputLine)
    ensures
        res@ == line_kind(line@),
{
    match regex_captures(PROGRESS_PATTERN, line) {
        Some(groups) => progress_report(&groups),
        None => classify_unmatched_line(line),
    }
}

// ---------------------------------------------------------------------------
// Applying lines to a task
// ---------------------------------------------------------------------------

/// What a line means for the progress figures kept beside the task state.
pub enum ProgressHint {
    /// The downloader reported this percentage of the current pass.
    Reported(Option<String>),
    /// The download of the current pass has begun.
    DownloadBegun,
    /// The current pass is post-processing.
    PostProcessing,
    /// The progress figures stay as they are.
    Unchanged,
}

/// The mathematical content of a [`ProgressHint`].
pub enum HintView {
    Reported(Option<Seq<char>>),
    DownloadBegun,
    PostProcessing,
    Unchanged,
}

impl View for ProgressHint {
    type V = HintView;

    open spec fn view(&self) -> HintView {
        match self {
            ProgressHint::Reported(p) => HintView::Reported(opt_view(*p)),
            ProgressHint::DownloadBegun => HintView::DownloadBegun,
            ProgressHint::PostProcessing => HintView::PostProcessing,
            ProgressHint::Unchanged => HintView::Unchanged,
        }
    }
}

/// What a line of the given kind means for the progress figures.
pub open spec fn kind_hint(kind: LineKind) -> HintView {
    match kind {
        LineKind::Progress { percent, .. } => HintView::Reported(percent),
        LineKind::DownloadNotice => HintView::DownloadBegun,
        LineKind::Destination => HintView::DownloadBegun,
        LineKind::PostProcessing => HintView::PostProcessing,
        _ => HintView::Unchanged,
    }
}

/// The output paths after capturing `p`: unchanged if it is already there,
/// else `p` added at the end.
pub open spec fn with_path(paths: Seq<Seq<char>>, p: Seq<char>) -> Seq<Seq<char>> {
    if paths.contains(p) {
        paths
    } else {
        paths.push(p)
    }
}

/// The state after a downloader line of the given kind. An error line fails
/// the task, though a final status is kept; a captured path becomes the
/// output of the current pass.
pub open spec fn after_line(s: TaskView, kind: LineKind, line: Seq<char>) -> TaskView {
    match kind {
        LineKind::Progress { eta, .. } => TaskView {
            phase: TaskPhase::Downloading,
            eta: eta,
            last_message: Some(line),
            ..s
        },
        LineKind::DownloadNotice => TaskView {
            phase: TaskPhase::Downloading,
            last_message: Some(line),
            ..s
        },
        LineKind::Destination => TaskView {
            phase: TaskPhase::Downloading,
            last_message: Some(line),
            ..s
        },
        LineKind::PostProcessing => TaskView {
            phase: TaskPhase::Processing,
            last_message: Some(line),
            ..s
        },
        LineKind::Warning => TaskView { last_message: Some(line), ..s },
        LineKind::Error => TaskView {
            status: settled(s, TaskStatus::Failed),
            phase: TaskPhase::Failed,
            error: Some(line),
            last_message: Some(line),
            ..s
        },
        LineKind::OutputPath(p) => TaskView {
            output_path: if s.output_path is Some {
                s.output_path
            } else {
                Some(p)
            },
            output_paths: with_path(s.output_paths, p),
            pass_output: Some(p),
            last_message: Some("Final output path captured"@),
            ..s
        },
        LineKind::Other => TaskView { last_message: Some(line), ..s },
    }
}

/// Whether `paths` holds `p`.
fn holds_path(paths: &Vec<String>, p: &String) -> (res: bool)
    ensures
        res == views(paths@).contains(p@),
{
    let n = paths.len();
    let mut i: usize = 0;
    while i < n
        invariant
            n == paths.len(),
            i <= n,
            forall|j: int| 0 <= j < i ==> paths@[j]@ != p@,
        decreases n - i,
    {
        if paths[i] == *p {
            assert(views(paths@)[i as int] == p@);
            return true;
        }
        i = i + 1;
    }
    proof {
        if views(paths@).contains(p@) {
            let k = choose|k: int| 0 <= k < views(paths@).len() && views(paths@)[k] == p@;
            assert(paths@[k]@ == p@);
        }
    }
    false
}

/// Adds `p` to the output paths unless it is already there.
pub(crate) fn add_path(paths: &mut Vec<String>, p: String)
    ensures
        views(final(paths)@) == with_path(views(old(paths)@), p@),
{
    if !holds_path(paths, &p) {
        let ghost before = paths@;
        paths.push(p);
        assert(views(paths@) =~= views(before).push(p@));
    }
}

impl TaskState {
    /// Applies a downloader line of the given kind to the task; returns what
    /// it means for the progress figures.
    pub fn apply_output_line(&mut self, line: &str, kind: OutputLine) -> (res: ProgressHint)
        ensures
            final(self)@ == after_line(old(self)@, kind@, line@),
            res@ == kind_hint(kind@),
    {
        match kind {
            OutputLine::Progress { percent, eta } => {
                self.phase = TaskPhase::Downloading;
                self.eta = eta;
                self.last_message = Some(owned(line));
                ProgressHint::Reported(percent)
            },
            OutputLine::DownloadNotice => {
                self.phase = TaskPhase::Downloading;
                self.last_message = Some(owned(line));
                ProgressHint::DownloadBegun
            },
            OutputLine::Destination => {
                self.phase = TaskPhase::Downloading;
                self.last_message = Some(owned(line));
                ProgressHint::DownloadBegun
            },
            OutputLine::PostProcessing => {
                self.phase = TaskPhase::Processing;
                self.last_message = Some(owned(line));
                ProgressHint::PostProcessing
            },
            OutputLine::Warning => {
                self.last_message = Some(owned(line));
                ProgressHint::Unchanged
            },
            OutputLine::Error => {
                if !self.status.is_terminal() {
                    self.status = TaskStatus::Failed;
                }
                self.phase = TaskPhase::Failed;
                self.error = Some(owned(line));
                self.last_message = Some(owned(line));
                ProgressHint::Unchanged
            },
            OutputLine::OutputPath(p) => {
                if self.output_path.is_none() {
                    self.output_path = Some(p.clone());
                }
                add_path(&mut self.output_paths, p.clone());
                self.pass_output = Some(p);
                self.last_message = Some(owned("Final output path captured"));
                ProgressHint::Unchanged
            },
            OutputLine::Other => {
                self.last_message = Some(owned(line));
                ProgressHint::Unchanged
            },
        }
    }

    /// Reads one downloader line into the task; returns what it means for
    /// the progress figures.
    pub fn process_output_line(&mut self, line: &str) -> (res: ProgressHint)
        ensures
            final(self)@ == after_line(old(self)@, line_kind(line@), line@),
            res@ == kind_hint(line_kind(line@)),
    {
        let kind = classify_output_line(line);
        self.apply_output_line(line, kind)
    }
}

} // verus!
