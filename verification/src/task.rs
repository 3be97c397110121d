//! One download, from request to report, as a state machine. The caller
//! performs what each step asks for (waiting, spawning the external
//! downloader) and feeds back what happened.

use vstd::prelude::*;
use vstd::string::*;
use crate::downloader::{DownloadResult, Downloader, SchedulerView, StartOutcome};

verus! {

/// Where a download task stands.
#[derive(Clone, Copy, Debug, PartialEq, Eq, Structural)]
pub enum TaskPhase {
    /// Created, not yet announced to the scheduler.
    Requested,
    /// Enqueued; waits for a permit and for priority.
    Waiting,
    /// Holds a permit; the external process is being spawned or runs.
    Running,
    /// Reported or dropped; nothing more will happen.
    Done,
}

/// What the caller tells a task.
#[derive(Clone, Copy, Debug, PartialEq, Eq, Structural)]
pub enum TaskEvent {
    /// Start working on the request.
    Begin,
    /// A permit may be free, or the turn has come round again after a yield.
    Wake,
    /// The external process could not be spawned.
    SpawnFailed,
    /// The external process ended; `success` is true for exit code zero.
    Exited { success: bool },
}

/// What a task asks of its caller.
#[derive(Debug)]
pub enum TaskAction {
    /// The source was enqueued already: there is no task and no result.
    Dropped,
    /// Suspend until a permit is given back, then send `Wake`.
    AwaitPermit,
    /// A more recent request goes first: let other tasks run, then send
    /// `Wake`.
    YieldAndRetry,
    /// Spawn `program` with `args`, output suppressed, wait for it to end,
    /// and send `Exited`, or `SpawnFailed`.
    Spawn { program: String, args: Vec<String> },
    /// Hand the result to the orchestrator.
    Report(DownloadResult),
    /// The event does not belong to this phase; nothing changed.
    Ignored,
}

/// The kinds of `TaskAction`, without what they carry.
pub enum ActionKind {
    Dropped,
    AwaitPermit,
    YieldAndRetry,
    Spawn,
    ReportCompleted,
    ReportFailed,
    Ignored,
}

/// Name of the external downloader.
pub open spec fn downloader_program() -> Seq<char> {
    "yt-dlp"@
}

/// Address of the page that the external downloader fetches `id` from.
pub open spec fn watch_url(id: Seq<char>) -> Seq<char> {
    "https://www.youtube.com/watch?v="@ + id
}

/// Arguments of the external downloader: extract the best audio stream,
/// transcode it to mp3, write it to `path`, embed the thumbnail if there is
/// one, from the page of `id`.
pub open spec fn download_args(id: Seq<char>, path: Seq<char>) -> Seq<Seq<char>> {
    seq![
        "-x"@,
        "--audio-format"@,
        "mp3"@,
        "-f"@,
        "bestaudio"@,
        "--output"@,
        path,
        "--embed-thumbnail"@,
        watch_url(id),
    ]
}

/// What a task in `phase` answers to `event` when the scheduler is `sched`.
pub open spec fn step_kind(
    phase: TaskPhase,
    sched: SchedulerView,
    id: Seq<char>,
    event: TaskEvent,
) -> ActionKind {
    match (phase, event) {
        (TaskPhase::Requested, TaskEvent::Begin) => if !sched.accepts(id) {
            ActionKind::Dropped
        } else {
            match sched.request(id).start_outcome(id) {
                StartOutcome::Started => ActionKind::Spawn,
                StartOutcome::NoPermit => ActionKind::AwaitPermit,
                StartOutcome::Outranked => ActionKind::YieldAndRetry,
            }
        },
        (TaskPhase::Waiting, TaskEvent::Wake) => match sched.start_outcome(id) {
            StartOutcome::Started => ActionKind::Spawn,
            StartOutcome::NoPermit => ActionKind::AwaitPermit,
            StartOutcome::Outranked => ActionKind::YieldAndRetry,
        },
        (TaskPhase::Running, TaskEvent::SpawnFailed) => ActionKind::ReportFailed,
        (TaskPhase::Running, TaskEvent::Exited { success }) => if success {
            ActionKind::ReportCompleted
        } else {
            ActionKind::ReportFailed
        },
        _ => ActionKind::Ignored,
    }
}

/// The phase that follows an answer of kind `kind` given in `phase`.
pub open spec fn step_phase(phase: TaskPhase, kind: ActionKind) -> TaskPhase {
    match kind {
        ActionKind::Dropped => TaskPhase::Done,
        ActionKind::AwaitPermit => TaskPhase::Waiting,
        ActionKind::YieldAndRetry => TaskPhase::Waiting,
        ActionKind::Spawn => TaskPhase::Running,
        ActionKind::ReportCompleted => TaskPhase::Done,
        ActionKind::ReportFailed => TaskPhase::Done,
        ActionKind::Ignored => phase,
    }
}

/// The scheduler after a task in `phase` handled `event`.
pub open spec fn step_sched(
    phase: TaskPhase,
    sched: SchedulerView,
    id: Seq<char>,
    event: TaskEvent,
) -> SchedulerView {
    match (phase, event) {
        (TaskPhase::Requested, TaskEvent::Begin) => if !sched.accepts(id) {
            sched.request(id)
        } else {
            sched.request(id).try_start(id)
        },
        (TaskPhase::Waiting, TaskEvent::Wake) => sched.try_start(id),
        (TaskPhase::Running, TaskEvent::SpawnFailed) => sched.finish(),
        (TaskPhase::Running, TaskEvent::Exited { .. }) => sched.finish(),
        _ => sched,
    }
}

/// Whether `action` is the action of kind `kind` for the download of `id`
/// to `path`.
pub open spec fn action_is(
    action: TaskAction,
    kind: ActionKind,
    id: Seq<char>,
    path: Seq<char>,
) -> bool {
    match kind {
        ActionKind::Dropped => action is Dropped,
        ActionKind::AwaitPermit => action is AwaitPermit,
        ActionKind::YieldAndRetry => action is YieldAndRetry,
        ActionKind::Spawn => {
            &&& action matches TaskAction::Spawn { program, args }
            &&& program@ == downloader_program()
            &&& args.deep_view() == download_args(id, path)
        },
        ActionKind::ReportCompleted => {
            &&& action matches TaskAction::Report(
                DownloadResult::Completed { source_id, file_path },
            )
            &&& source_id@ == id
            &&& file_path@ == path
        },
        ActionKind::ReportFailed => {
            &&& action matches TaskAction::Report(DownloadResult::Failed { source_id })
            &&& source_id@ == id
        },
        ActionKind::Ignored => action is Ignored,
    }
}

/// While a source is enqueued, in flight or waiting to be picked up, a new
/// task for it is dropped at once: it takes no permit and spawns nothing.
/// The request still counts as the most recent one.
pub proof fn lemma_enqueued_source_spawns_nothing(sched: SchedulerView, id: Seq<char>)
    requires
        sched.enqueued.contains(id),
    ensures
        step_kind(TaskPhase::Requested, sched, id, TaskEvent::Begin) == ActionKind::Dropped,
        step_phase(TaskPhase::Requested, ActionKind::Dropped) == TaskPhase::Done,
        step_sched(TaskPhase::Requested, sched, id, TaskEvent::Begin).active == sched.active,
        step_sched(TaskPhase::Requested, sched, id, TaskEvent::Begin).enqueued == sched.enqueued,
        step_sched(TaskPhase::Requested, sched, id, TaskEvent::Begin).latest == Some(id),
{
    assert(sched.enqueued.insert(id) =~= sched.enqueued);
}

/// A task takes a permit only where one is free and gives it back when
/// its process has ended: no step lets more downloads run than there are
/// permits.
pub proof fn lemma_step_keeps_capacity(
    phase: TaskPhase,
    sched: SchedulerView,
    id: Seq<char>,
    event: TaskEvent,
)
    requires
        sched.wf(),
    ensures
        step_sched(phase, sched, id, event).wf(),
        step_sched(phase, sched, id, event).capacity == sched.capacity,
        step_kind(phase, sched, id, event) is Spawn ==> step_sched(phase, sched, id, event).active
            == sched.active + 1,
{
}

/// The arguments for the external downloader, see `download_args`.
pub fn command_args(id: &str, path: &str) -> (args: Vec<String>)
    ensures
        args.deep_view() == download_args(id@, path@),
{
    let mut args: Vec<String> = Vec::new();
    args.push(String::from_str("-x"));
    args.push(String::from_str("--audio-format"));
    args.push(String::from_str("mp3"));
    args.push(String::from_str("-f"));
    args.push(String::from_str("bestaudio"));
    args.push(String::from_str("--output"));
    args.push(String::from_str(path));
    args.push(String::from_str("--embed-thumbnail"));
    args.push(String::from_str("https://www.youtube.com/watch?v=").concat(id));
    assert(args.deep_view() =~= download_args(id@, path@));
    args
}

/// One request to download a source to a file.
pub struct DownloadTask {
    source_id: String,
    file_path: String,
    phase: TaskPhase,
}

impl DownloadTask {
    /// The source to download.
    pub closed spec fn id_view(&self) -> Seq<char> {
        self.source_id@
    }

    /// Where the file is written.
    pub closed spec fn path_view(&self) -> Seq<char> {
        self.file_path@
    }

    /// Where the task stands.
    pub closed spec fn phase_view(&self) -> TaskPhase {
        self.phase
    }

    /// A task for `source_id`, to be written to `file_path`. Nothing has
    /// been announced to the scheduler yet.
    pub fn new(source_id: &str, file_path: &str) -> (t: Self)
        ensures
            t.id_view() == source_id@,
            t.path_view() == file_path@,
            t.phase_view() == TaskPhase::Requested,
    {
        DownloadTask {
            source_id: String::from_str(source_id),
            file_path: String::from_str(file_path),
            phase: TaskPhase::Requested,
        }
    }

    pub fn phase(&self) -> (p: TaskPhase)
        ensures
            p == self.phase_view(),
    {
        self.phase
    }

    pub fn source_id(&self) -> (s: &str)
        ensures
            s@ == self.id_view(),
    {
        self.source_id.as_str()
    }

    pub fn file_path(&self) -> (s: &str)
        ensures
            s@ == self.path_view(),
    {
        self.file_path.as_str()
    }

    /// Asks the scheduler for a start and turns the answer into an action.
    fn attempt(&mut self, sched: &mut Downloader) -> (action: TaskAction)
        requires
            old(sched).wf(),
        ensures
            final(sched).wf(),
            final(sched)@ == old(sched)@.try_start(old(self).id_view()),
            final(self).id_view() == old(self).id_view(),
            final(self).path_view() == old(self).path_view(),
            ({
                let kind = match old(sched)@.start_outcome(old(self).id_view()) {
                    StartOutcome::Started => ActionKind::Spawn,
                    StartOutcome::NoPermit => ActionKind::AwaitPermit,
                    StartOutcome::Outranked => ActionKind::YieldAndRetry,
                };
                &&& action_is(action, kind, old(self).id_view(), old(self).path_view())
                &&& final(self).phase_view() == step_phase(old(self).phase_view(), kind)
            }),
    {
        match sched.try_start(self.source_id.as_str()) {
            StartOutcome::Started => {
                self.phase = TaskPhase::Running;
                TaskAction::Spawn {
                    program: String::from_str("yt-dlp"),
                    args: command_args(self.source_id.as_str(), self.file_path.as_str()),
                }
            },
            StartOutcome::NoPermit => {
                self.phase = TaskPhase::Waiting;
                TaskAction::AwaitPermit
            },
            StartOutcome::Outranked => {
                self.phase = TaskPhase::Waiting;
                TaskAction::YieldAndRetry
            },
        }
    }

    /// Advances the task by one event.
    ///
    /// `Begin` announces the request: a duplicate is dropped, anything else
    /// is enqueued, marked as the most recent request, and tries to start.
    /// `Wake` tries to start again. A start needs a free permit and
    /// priority; without priority the permit goes back at once. When the
    /// process has ended or could not be spawned, the permit goes back
    /// before the result is reported.
    pub fn step(&mut self, sched: &mut Downloader, event: TaskEvent) -> (action: TaskAction)
        requires
            old(sched).wf(),
        ensures
            final(sched).wf(),
            final(self).id_view() == old(self).id_view(),
            final(self).path_view() == old(self).path_view(),
            final(sched)@ == step_sched(
                old(self).phase_view(),
                old(sched)@,
                old(self).id_view(),
                event,
            ),
            ({
                let kind = step_kind(
                    old(self).phase_view(),
                    old(sched)@,
                    old(self).id_view(),
                    event,
                );
                &&& action_is(action, kind, old(self).id_view(), old(self).path_view())
                &&& final(self).phase_view() == step_phase(old(self).phase_view(), kind)
            }),
    {
        match (self.phase, event) {
            (TaskPhase::Requested, TaskEvent::Begin) => {
                if !sched.request(self.source_id.as_str()) {
                    self.phase = TaskPhase::Done;
                    TaskAction::Dropped
                } else {
                    self.attempt(sched)
                }
            },
            (TaskPhase::Waiting, TaskEvent::Wake) => self.attempt(sched),
            (TaskPhase::Running, TaskEvent::SpawnFailed) => {
                sched.finish();
                self.phase = TaskPhase::Done;
                TaskAction::Report(DownloadResult::Failed { source_id: self.source_id.clone() })
            },
            (TaskPhase::Running, TaskEvent::Exited { success }) => {
                sched.finish();
                self.phase = TaskPhase::Done;
                if success {
                    TaskAction::Report(
                        DownloadResult::Completed {
                            source_id: self.source_id.clone(),
                            file_path: self.file_path.clone(),
                        },
                    )
                } else {
                    TaskAction::Report(
                        DownloadResult::Failed { source_id: self.source_id.clone() },
                    )
                }
            },
            _ => TaskAction::Ignored,
        }
    }
}

impl Downloader {
    /// Takes in a request to download `yt_id` to `file_path`. The source
    /// becomes the most recent request in any case. If it was enqueued
    /// already there is nothing more to do and no task; otherwise it is
    /// enqueued now, and the task returned waits for its turn: send it
    /// `Wake`.
    pub fn download_id(&mut self, yt_id: &str, file_path: &str) -> (task: Option<DownloadTask>)
        requires
            old(self).wf(),
        ensures
            final(self).wf(),
            final(self)@ == old(self)@.request(yt_id@),
            match task {
                Some(t) => {
                    &&& old(self)@.accepts(yt_id@)
                    &&& t.id_view() == yt_id@
                    &&& t.path_view() == file_path@
                    &&& t.phase_view() == TaskPhase::Waiting
                },
                None => !old(self)@.accepts(yt_id@),
            },
    {
        if self.request(yt_id) {
            Some(
                DownloadTask {
                    source_id: String::from_str(yt_id),
                    file_path: String::from_str(file_path),
                    phase: TaskPhase::Waiting,
                },
            )
        } else {
            None
        }
    }
}

} // verus!
