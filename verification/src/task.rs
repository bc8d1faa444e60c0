//! The state of a download task and every transition it goes through.
//!
//! The progress figures and timestamps of a task are kept by the server
//! beside this state; every decision about status, phase, messages, errors
//! and output paths is taken here.

use vstd::prelude::*;
use crate::text::{cat, opt_view, owned, views};

verus! {

/// The status of a task as the client sees it.
#[derive(Clone, Copy, Debug, PartialEq, Eq, Structural)]
pub enum TaskStatus {
    Queued,
    Running,
    Cancelling,
    Cancelled,
    Completed,
    Failed,
}

/// The phase of a task as the client sees it.
#[derive(Clone, Copy, Debug, PartialEq, Eq, Structural)]
pub enum TaskPhase {
    Queued,
    Preparing,
    Starting,
    Downloading,
    Processing,
    Cancelling,
    Cancelled,
    Completed,
    Failed,
}

/// The name under which a status is reported.
pub open spec fn status_name(s: TaskStatus) -> Seq<char> {
    match s {
        TaskStatus::Queued => "queued"@,
        TaskStatus::Running => "running"@,
        TaskStatus::Cancelling => "cancelling"@,
        TaskStatus::Cancelled => "cancelled"@,
        TaskStatus::Completed => "completed"@,
        TaskStatus::Failed => "failed"@,
    }
}

/// The name under which a phase is reported.
pub open spec fn phase_name(p: TaskPhase) -> Seq<char> {
    match p {
        TaskPhase::Queued => "queued"@,
        TaskPhase::Preparing => "preparing"@,
        TaskPhase::Starting => "starting"@,
        TaskPhase::Downloading => "downloading"@,
        TaskPhase::Processing => "processing"@,
        TaskPhase::Cancelling => "cancelling"@,
        TaskPhase::Cancelled => "cancelled"@,
        TaskPhase::Completed => "completed"@,
        TaskPhase::Failed => "failed"@,
    }
}

impl TaskStatus {
    /// The name under which this status is reported.
    pub fn as_str(&self) -> (res: &'static str)
        ensures
            res@ == status_name(*self),
    {
        match self {
            TaskStatus::Queued => "queued",
            TaskStatus::Running => "running",
            TaskStatus::Cancelling => "cancelling",
            TaskStatus::Cancelled => "cancelled",
            TaskStatus::Completed => "completed",
            TaskStatus::Failed => "failed",
        }
    }

    /// Whether a task in this status is finished: completed, failed or
    /// cancelled.
    pub open spec fn is_terminal_spec(&self) -> bool {
        *self == TaskStatus::Completed || *self == TaskStatus::Failed || *self == TaskStatus::Cancelled
    }

    /// Whether a task in this status is finished.
    #[verifier::when_used_as_spec(is_terminal_spec)]
    pub fn is_terminal(&self) -> (res: bool)
        ensures
            res == self.is_terminal_spec(),
    {
        match self {
            TaskStatus::Completed | TaskStatus::Failed | TaskStatus::Cancelled => true,
            _ => false,
        }
    }
}

impl TaskPhase {
    /// The name under which this phase is reported.
    pub fn as_str(&self) -> (res: &'static str)
        ensures
            res@ == phase_name(*self),
    {
        match self {
            TaskPhase::Queued => "queued",
            TaskPhase::Preparing => "preparing",
            TaskPhase::Starting => "starting",
            TaskPhase::Downloading => "downloading",
            TaskPhase::Processing => "processing",
            TaskPhase::Cancelling => "cancelling",
            TaskPhase::Cancelled => "cancelled",
            TaskPhase::Completed => "completed",
            TaskPhase::Failed => "failed",
        }
    }
}

/// The state of a download task, apart from its progress figures and
/// timestamps.
pub struct TaskState {
    pub status: TaskStatus,
    pub cancel_requested: bool,
    pub phase: TaskPhase,
    pub eta: Option<String>,
    pub output_path: Option<String>,
    pub output_paths: Vec<String>,
    pub last_message: Option<String>,
    pub error: Option<String>,
    /// The last file captured during the current pass, if any.
    pub pass_output: Option<String>,
}

/// The mathematical content of a [`TaskState`].
pub struct TaskView {
    pub status: TaskStatus,
    pub cancel_requested: bool,
    pub phase: TaskPhase,
    pub eta: Option<Seq<char>>,
    pub output_path: Option<Seq<char>>,
    pub output_paths: Seq<Seq<char>>,
    pub last_message: Option<Seq<char>>,
    pub error: Option<Seq<char>>,
    pub pass_output: Option<Seq<char>>,
}

impl View for TaskState {
    type V = TaskView;

    open spec fn view(&self) -> TaskView {
        TaskView {
            status: self.status,
            cancel_requested: self.cancel_requested,
            phase: self.phase,
            eta: opt_view(self.eta),
            output_path: opt_view(self.output_path),
            output_paths: views(self.output_paths@),
            last_message: opt_view(self.last_message),
            error: opt_view(self.error),
            pass_output: opt_view(self.pass_output),
        }
    }
}

/// How a finished tool process ended.
pub struct ExitReport {
    /// Whether the process reported success.
    pub success: bool,
    /// The platform's description of the exit status.
    pub description: String,
}

/// A task that has just been accepted.
pub open spec fn queued_task() -> TaskView {
    TaskView {
        status: TaskStatus::Queued,
        cancel_requested: false,
        phase: TaskPhase::Queued,
        eta: None,
        output_path: None,
        output_paths: Seq::empty(),
        last_message: Some("Task queued"@),
        error: None,
        pass_output: None,
    }
}

/// Whether the task has reached a final status: completed, failed or
/// cancelled. Once a task is final its status never changes again.
pub open spec fn is_final(s: TaskView) -> bool {
    s.status.is_terminal_spec()
}

/// The status a transition towards `to` leaves: a final status is kept,
/// any other one becomes `to`.
pub open spec fn settled(s: TaskView, to: TaskStatus) -> TaskStatus {
    if is_final(s) {
        s.status
    } else {
        to
    }
}

/// `s` moved towards the given status, with the given phase and message.
pub open spec fn with_state(s: TaskView, status: TaskStatus, phase: TaskPhase, msg: Seq<char>) -> TaskView {
    TaskView { status: settled(s, status), phase, last_message: Some(msg), ..s }
}

/// `s` with the given message.
pub open spec fn with_message(s: TaskView, msg: Seq<char>) -> TaskView {
    TaskView { last_message: Some(msg), ..s }
}

/// Why a cancellation was refused.
pub enum CancelRefusal {
    /// The task has already completed, failed or been cancelled.
    AlreadyFinished,
}

impl CancelRefusal {
    /// The text reported for this refusal.
    pub fn message(&self) -> (res: String)
        ensures
            res@ == "Task is already in a terminal state"@,
    {
        owned("Task is already in a terminal state")
    }
}

/// The state after a cancellation request that was accepted: a queued task
/// is cancelled at once, any other one is asked to stop.
pub open spec fn after_cancel(s: TaskView) -> TaskView {
    if s.status == TaskStatus::Queued {
        TaskView {
            cancel_requested: true,
            ..with_state(
                s,
                TaskStatus::Cancelled,
                TaskPhase::Cancelled,
                "Cancelled before download started"@,
            )
        }
    } else {
        TaskView {
            cancel_requested: true,
            ..with_state(s, TaskStatus::Cancelling, TaskPhase::Cancelling, "Cancellation requested"@)
        }
    }
}

/// The failure recorded when a tool process ends unsuccessfully.
pub open spec fn after_tool_failure(s: TaskView, tool: Seq<char>, description: Seq<char>) -> TaskView {
    TaskView {
        status: settled(s, TaskStatus::Failed),
        phase: TaskPhase::Failed,
        error: Some(tool + " exited with status: "@ + description),
        ..s
    }
}

/// Whether a task in this phase and status is given heartbeat updates.
pub enum Heartbeat {
    /// Nothing changes.
    Idle,
    /// The downloader has been quiet past its start-up grace: the task is
    /// now reported as downloading.
    Promoted,
    /// The task is downloading; its progress may be estimated from time.
    Downloading,
}

/// The state after a heartbeat, given whether the start-up grace period is
/// over.
pub open spec fn after_heartbeat(s: TaskView, grace_over: bool) -> TaskView {
    if s.status == TaskStatus::Running && s.phase == TaskPhase::Starting && grace_over {
        TaskView {
            phase: TaskPhase::Downloading,
            last_message: Some("Download in progress (waiting for detailed progress from yt-dlp)"@),
            ..s
        }
    } else {
        s
    }
}

/// The heartbeat effect for a state, given whether the start-up grace period
/// is over.
pub open spec fn heartbeat_effect(s: TaskView, grace_over: bool) -> Heartbeat {
    if s.status != TaskStatus::Running {
        Heartbeat::Idle
    } else if s.phase == TaskPhase::Starting && grace_over {
        Heartbeat::Promoted
    } else if s.phase == TaskPhase::Downloading {
        Heartbeat::Downloading
    } else {
        Heartbeat::Idle
    }
}

/// The state after a run stopped before producing output because of `error`.
pub open spec fn after_abort(s: TaskView, error: Seq<char>) -> TaskView {
    TaskView {
        status: settled(s, TaskStatus::Failed),
        error: Some(error),
        last_message: Some("Download task aborted before progress output"@),
        ..s
    }
}

/// The state at the start of a run.
pub open spec fn after_begin(s: TaskView) -> TaskView {
    if s.cancel_requested {
        with_state(s, TaskStatus::Cancelled, TaskPhase::Cancelled, "Cancelled before process start"@)
    } else {
        with_state(s, TaskStatus::Running, TaskPhase::Preparing, "Preparing yt-dlp command"@)
    }
}

/// The state once every pass has run.
pub open spec fn after_completion(s: TaskView) -> TaskView {
    with_state(s, TaskStatus::Completed, TaskPhase::Completed, "Download completed"@)
}

/// What a run does next.
#[derive(Clone, Copy, Debug, PartialEq, Eq, Structural)]
pub enum RunStep {
    /// Run the pass with this index.
    StartPass(usize),
    /// The task is finished; run nothing more.
    Stop,
    /// Every pass has run and the task is now completed.
    Complete,
}

/// The state after the decision taken before each pass, `done` passes of
/// `total` having run: a task marked for cancellation is cancelled; a final
/// task, or one with passes left, is unchanged; any other task is completed.
pub open spec fn after_step(s: TaskView, done: int, total: int) -> TaskView {
    if s.cancel_requested {
        if done < total {
            with_state(
                s,
                TaskStatus::Cancelled,
                TaskPhase::Cancelled,
                "Cancelled before next download pass"@,
            )
        } else {
            with_state(s, TaskStatus::Cancelled, TaskPhase::Cancelled, "Download cancelled by user"@)
        }
    } else if is_final(s) || done < total {
        s
    } else {
        after_completion(s)
    }
}

/// The decision taken before each pass, `done` passes of `total` having run.
pub open spec fn step_of(s: TaskView, done: int, total: int) -> RunStep {
    if is_final(s) || s.cancel_requested {
        RunStep::Stop
    } else if done < total {
        RunStep::StartPass(done as usize)
    } else {
        RunStep::Complete
    }
}

/// The state when the downloader is started for the pass `label`: nothing
/// has been captured by this pass yet.
pub open spec fn after_pass_start(s: TaskView, label: Seq<char>) -> TaskView {
    TaskView {
        phase: TaskPhase::Starting,
        last_message: Some("Starting "@ + label + " download pass"@),
        pass_output: None,
        ..s
    }
}

/// The state after the cancellation check made while the pass `label` runs.
pub open spec fn after_pass_cancel_check(s: TaskView, label: Seq<char>) -> TaskView {
    if !s.cancel_requested {
        s
    } else {
        with_state(
            s,
            TaskStatus::Cancelling,
            TaskPhase::Cancelling,
            "Stopping "@ + label + " download pass"@,
        )
    }
}

/// The state after the downloader was stopped at the user's request.
pub open spec fn after_pass_cancelled(s: TaskView) -> TaskView {
    with_state(s, TaskStatus::Cancelled, TaskPhase::Cancelled, "Download cancelled by user"@)
}

/// The state after the downloader of the pass `label` ended.
pub open spec fn after_pass_exit(s: TaskView, label: Seq<char>, success: bool, description: Seq<
    char,
>) -> TaskView {
    if success {
        TaskView {
            phase: TaskPhase::Processing,
            last_message: Some(label + " download pass completed"@),
            ..s
        }
    } else {
        after_tool_failure(s, "yt-dlp"@, description)
    }
}

impl TaskState {
    /// A task that has just been accepted: queued, with nothing captured yet.
    pub fn new() -> (res: TaskState)
        ensures
            res@ == queued_task(),
    {
        let res = TaskState {
            status: TaskStatus::Queued,
            cancel_requested: false,
            phase: TaskPhase::Queued,
            eta: None,
            output_path: None,
            output_paths: Vec::new(),
            last_message: Some(owned("Task queued")),
            error: None,
            pass_output: None,
        };
        assert(res@.output_paths =~= Seq::<Seq<char>>::empty());
        res
    }

    /// A cancellation request: refused for a finished task, which stays as it
    /// was; otherwise the task is marked for cancellation.
    pub fn request_cancel(&mut self) -> (res: Result<(), CancelRefusal>)
        ensures
            old(self).status.is_terminal_spec() ==> res is Err && final(self)@ == old(self)@,
            !old(self).status.is_terminal_spec() ==> res is Ok && final(self)@ == after_cancel(
                old(self)@,
            ),
    {
        if self.status.is_terminal() {
            return Err(CancelRefusal::AlreadyFinished);
        }
        self.cancel_requested = true;
        if self.status == TaskStatus::Queued {
            self.status = TaskStatus::Cancelled;
            self.phase = TaskPhase::Cancelled;
            self.last_message = Some(owned("Cancelled before download started"));
        } else {
            self.status = TaskStatus::Cancelling;
            self.phase = TaskPhase::Cancelling;
            self.last_message = Some(owned("Cancellation requested"));
        }
        Ok(())
    }

    /// Moves the status towards `to`; a final status is kept.
    fn settle_status(&mut self, to: TaskStatus)
        ensures
            final(self)@ == (TaskView { status: settled(old(self)@, to), ..old(self)@ }),
    {
        if !self.status.is_terminal() {
            self.status = to;
        }
    }

    /// Moves the task towards the status `to`, with `phase` and `msg`.
    fn move_to(&mut self, to: TaskStatus, phase: TaskPhase, msg: String)
        ensures
            final(self)@ == with_state(old(self)@, to, phase, msg@),
    {
        self.settle_status(to);
        self.phase = phase;
        self.last_message = Some(msg);
    }

    /// Records that the run stopped before producing output because of
    /// `error`; a final status is kept.
    pub fn mark_aborted(&mut self, error: &str)
        ensures
            final(self)@ == after_abort(old(self)@, error@),
    {
        self.settle_status(TaskStatus::Failed);
        self.error = Some(owned(error));
        self.last_message = Some(owned("Download task aborted before progress output"));
    }

    /// The start of a run; returns whether the run goes on, which it does
    /// unless the task is final or marked for cancellation. A task marked for
    /// cancellation is cancelled; any other one is prepared.
    pub fn begin_run(&mut self) -> (proceed: bool)
        ensures
            proceed == (!old(self).status.is_terminal_spec() && !old(self).cancel_requested),
            final(self)@ == after_begin(old(self)@),
    {
        let was_final = self.status.is_terminal();
        if self.cancel_requested {
            self.move_to(
                TaskStatus::Cancelled,
                TaskPhase::Cancelled,
                owned("Cancelled before process start"),
            );
            false
        } else {
            self.move_to(TaskStatus::Running, TaskPhase::Preparing, owned("Preparing yt-dlp command"));
            !was_final
        }
    }

    /// Records that every pass has run; a final status is kept.
    pub fn mark_completed(&mut self)
        ensures
            final(self)@ == after_completion(old(self)@),
    {
        self.move_to(TaskStatus::Completed, TaskPhase::Completed, owned("Download completed"));
    }

    /// Decides what the run does next, `done` passes of `total` having run:
    /// stop for a task marked for cancellation (which is then cancelled) or a
    /// final one (which is left as it is), start the next pass while passes
    /// are left, else complete the task.
    pub fn next_step(&mut self, done: usize, total: usize) -> (res: RunStep)
        ensures
            res == step_of(old(self)@, done as int, total as int),
            final(self)@ == after_step(old(self)@, done as int, total as int),
    {
        if self.cancel_requested {
            let msg = if done < total {
                owned("Cancelled before next download pass")
            } else {
                owned("Download cancelled by user")
            };
            self.move_to(TaskStatus::Cancelled, TaskPhase::Cancelled, msg);
            return RunStep::Stop;
        }
        if self.status.is_terminal() {
            return RunStep::Stop;
        }
        if done < total {
            RunStep::StartPass(done)
        } else {
            self.mark_completed();
            RunStep::Complete
        }
    }

    /// Records that the downloader is being started for the pass `label`.
    pub fn mark_pass_starting(&mut self, label: &str)
        ensures
            final(self)@ == after_pass_start(old(self)@, label@),
    {
        self.phase = TaskPhase::Starting;
        let mut msg = cat("Starting ", label);
        msg.append(" download pass");
        self.last_message = Some(msg);
        self.pass_output = None;
    }

    /// The heartbeat of a running pass, given whether the downloader has been
    /// running past its start-up grace period.
    pub fn heartbeat(&mut self, grace_over: bool) -> (res: Heartbeat)
        ensures
            final(self)@ == after_heartbeat(old(self)@, grace_over),
            res == heartbeat_effect(old(self)@, grace_over),
    {
        if self.status != TaskStatus::Running {
            return Heartbeat::Idle;
        }
        if self.phase == TaskPhase::Starting && grace_over {
            self.phase = TaskPhase::Downloading;
            self.last_message = Some(
                owned("Download in progress (waiting for detailed progress from yt-dlp)"),
            );
            return Heartbeat::Promoted;
        }
        if self.phase == TaskPhase::Downloading {
            Heartbeat::Downloading
        } else {
            Heartbeat::Idle
        }
    }

    /// The cancellation check while the pass `label` runs: returns whether
    /// the downloader must be stopped, which it must when cancellation was
    /// requested; the task is then reported as stopping.
    pub fn check_pass_cancel(&mut self, label: &str) -> (stop: bool)
        ensures
            stop == old(self).cancel_requested,
            final(self)@ == after_pass_cancel_check(old(self)@, label@),
    {
        if !self.cancel_requested {
            return false;
        }
        let mut msg = cat("Stopping ", label);
        msg.append(" download pass");
        self.move_to(TaskStatus::Cancelling, TaskPhase::Cancelling, msg);
        true
    }

    /// Records that the downloader was stopped at the user's request.
    pub fn mark_pass_cancelled(&mut self)
        ensures
            final(self)@ == after_pass_cancelled(old(self)@),
    {
        self.move_to(TaskStatus::Cancelled, TaskPhase::Cancelled, owned("Download cancelled by user"));
    }

    /// Records how the downloader of the pass `label` ended; returns whether
    /// it succeeded, in which case the pass's output may be converted.
    pub fn record_pass_exit(&mut self, label: &str, exit: &ExitReport) -> (succeeded: bool)
        ensures
            succeeded == exit.success,
            final(self)@ == after_pass_exit(old(self)@, label@, exit.success, exit.description@),
    {
        if exit.success {
            self.phase = TaskPhase::Processing;
            self.last_message = Some(cat(label, " download pass completed"));
            true
        } else {
            self.mark_tool_failed("yt-dlp", exit.description.as_str());
            false
        }
    }

    /// Records that the tool `tool` ended unsuccessfully; a final status is
    /// kept.
    pub fn mark_tool_failed(&mut self, tool: &str, description: &str)
        ensures
            final(self)@ == after_tool_failure(old(self)@, tool@, description@),
    {
        self.settle_status(TaskStatus::Failed);
        self.phase = TaskPhase::Failed;
        let mut msg = cat(tool, " exited with status: ");
        msg.append(description);
        self.error = Some(msg);
    }
}

} // verus!
