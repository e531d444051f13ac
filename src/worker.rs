use vstd::prelude::*;
use vstd::string::StringExecFns;
use crate::models::{TestStatus, TestTask};
use crate::queue::TestQueue;
use crate::text::{contains, contains_text, text_of};

verus! {

/// Text whose appearance in a job's output means the evaluation passed.
pub const SUCCESS_MARKER: &'static str = "Usertests passed!";

/// Text whose appearance in a job's output means the evaluation failed.
pub const FAILURE_MARKER: &'static str = "FAILED";

/// Wall-clock limit on a job's output stream, in seconds from spawn.
pub const TIMEOUT_SECS: u64 = 300;

/// Line written to a spawned job's standard input.
pub const EVAL_COMMAND: &'static str = "usertests\n";

/// Subdirectory of a job's directory that holds its build description.
pub const BUILD_SUBDIR: &'static str = "os";

/// Substring of the process name of the emulator that cleanup terminates.
pub const EMULATOR_NAME: &'static str = "qemu";

/// Seconds the worker waits before looking at an empty queue again.
pub const IDLE_SECS: u64 = 1;

/// What `String::from_utf8_lossy` makes of a chunk of bytes.
pub uninterp spec fn utf8_lossy(bytes: Seq<u8>) -> Seq<char>;

/// Relies on `String::from_utf8_lossy`: the text of a chunk of child output,
/// with invalid sequences replaced; it depends on the bytes alone.
#[verifier::external_body]
fn decode_chunk(bytes: &Vec<u8>) -> (r: String)
    ensures
        r@ == utf8_lossy(bytes@),
{
    String::from_utf8_lossy(bytes.as_slice()).into_owned()
}

/// Final record of one job: its status, everything it printed, and the
/// diagnostic, if any.
pub struct RunReport {
    pub status: TestStatus,
    pub output: String,
    pub error: Option<String>,
}

/// `r` holds exactly the given status, output and diagnostic.
pub open spec fn is_report(
    r: RunReport,
    status: TestStatus,
    output: Seq<char>,
    error: Option<Seq<char>>,
) -> bool {
    r.status == status && r.output@ == output && text_of(r.error) == error
}

/// Status of a job whose output ended without timeout or read failure.
pub open spec fn end_status(output: Seq<char>) -> TestStatus {
    if contains(output, SUCCESS_MARKER@) {
        TestStatus::Passed
    } else {
        TestStatus::Failed
    }
}

/// Whether the output holds one of the two markers, which ends streaming.
pub open spec fn has_marker(output: Seq<char>) -> bool {
    contains(output, SUCCESS_MARKER@) || contains(output, FAILURE_MARKER@)
}

pub open spec fn missing_dir_message(work_dir: Seq<char>) -> Seq<char> {
    "工作目录不存在: "@ + work_dir
}

pub open spec fn missing_build_dir_message(work_dir: Seq<char>) -> Seq<char> {
    "OS目录不存在: "@ + work_dir + "/os"@
}

pub open spec fn spawn_failed_message(cause: Seq<char>) -> Seq<char> {
    "进程启动失败: "@ + cause
}

pub open spec fn read_failed_message(cause: Seq<char>) -> Seq<char> {
    "读取输出失败: "@ + cause
}

pub open spec fn timeout_message() -> Seq<char> {
    "测试执行超时"@
}

/// Where the worker stands with the job it holds, if any.
pub enum Phase {
    /// No job is held.
    Idle,
    /// The job's `Running` status is being written.
    MarkingRunning { task: TestTask },
    /// The job's directories are being checked.
    Validating { task: TestTask },
    /// The build-and-run process is being started.
    Spawning { task: TestTask },
    /// The process runs; `output` is all it printed so far.
    Streaming { task: TestTask, output: String },
    /// A progress record with `output` is being written; `done` when a marker
    /// was seen and streaming is over.
    Persisting { task: TestTask, output: String, done: bool },
    /// Lingering emulator processes are being terminated.
    CleaningUp { task: TestTask, report: RunReport },
    /// The job's final record is being written.
    Saving { task: TestTask, report: RunReport },
}

/// The job a phase holds.
pub open spec fn held(p: Phase) -> Option<TestTask> {
    match p {
        Phase::Idle => None,
        Phase::MarkingRunning { task } => Some(task),
        Phase::Validating { task } => Some(task),
        Phase::Spawning { task } => Some(task),
        Phase::Streaming { task, .. } => Some(task),
        Phase::Persisting { task, .. } => Some(task),
        Phase::CleaningUp { task, .. } => Some(task),
        Phase::Saving { task, .. } => Some(task),
    }
}

/// What the outside world reports back to the worker.
pub enum Event {
    /// The idle wait is over.
    Tick,
    /// A status write finished; `true` when it succeeded.
    Written(bool),
    /// Whether the job's directory and its build subdirectory exist.
    Dirs { work_dir_exists: bool, build_dir_exists: bool },
    /// The process started.
    Spawned,
    /// The process could not start, for the given reason.
    SpawnFailed(String),
    /// The process printed these bytes.
    Chunk(Vec<u8>),
    /// The process closed its output.
    Eof,
    /// Reading the output failed, for the given reason.
    ReadFailed(String),
    /// The wall-clock limit passed before a marker or the end of output.
    TimedOut,
    /// The cleanup pass finished, whether or not it terminated anything.
    CleanedUp,
}

/// What the worker asks the outside world to do next.
pub enum Action {
    /// Wait `IDLE_SECS`, then report `Tick`.
    Sleep,
    /// Write this record for job `id`, then report `Written`.
    Write { id: i32, status: TestStatus, output: Option<String>, error: Option<String> },
    /// Check that `work_dir` and its `BUILD_SUBDIR` exist, then report `Dirs`.
    CheckDirs { work_dir: String },
    /// Start the build-and-run process in the `BUILD_SUBDIR` of `work_dir`,
    /// feed it `EVAL_COMMAND`, then report `Spawned` or `SpawnFailed`.
    Spawn { work_dir: String },
    /// Wait for output, racing the time limit; report `Chunk`, `Eof`,
    /// `ReadFailed` or `TimedOut`.
    Read,
    /// Terminate every process whose name holds `EMULATOR_NAME`, then report
    /// `CleanedUp`.
    Cleanup,
    /// The event did not fit the phase; nothing changed.
    Ignore,
}

/// `a` writes exactly this record for job `id`.
pub open spec fn writes(
    a: Action,
    id: i32,
    status: TestStatus,
    output: Option<Seq<char>>,
    error: Option<Seq<char>>,
) -> bool {
    match a {
        Action::Write { id: i, status: s, output: o, error: e } => i == id && s == status
            && text_of(o) == output && text_of(e) == error,
        _ => false,
    }
}

/// The status that `a` writes, if it is a write.
pub open spec fn written_status(a: Action) -> Option<TestStatus> {
    match a {
        Action::Write { status, .. } => Some(status),
        _ => None,
    }
}

/// The job that `a` writes a record for, if it is a write.
pub open spec fn written_id(a: Action) -> i32 {
    match a {
        Action::Write { id, .. } => id,
        _ => 0,
    }
}

/// `a` writes report `r` as the final record of `task`.
pub open spec fn writes_report(a: Action, task: TestTask, r: RunReport) -> bool {
    writes(a, task.id, r.status, Some(r.output@), text_of(r.error))
}

/// The single-lane evaluation engine: a queue of jobs and the one job it is
/// working on.
pub struct Worker {
    pub queue: TestQueue,
    pub phase: Phase,
}

/// `w2` took the head of `w1`'s queue and asks to mark it running, or, with
/// an empty queue, stays idle and asks to wait.
pub open spec fn took_next(w1: Worker, w2: Worker, a: Action) -> bool {
    if w1.queue@.len() == 0 {
        w2.queue@ == w1.queue@ && w2.phase is Idle && a is Sleep
    } else {
        &&& w2.queue@ == w1.queue@.subrange(1, w1.queue@.len() as int)
        &&& w2.phase == (Phase::MarkingRunning { task: w1.queue@[0] })
        &&& writes(a, w1.queue@[0].id, TestStatus::Running, None, None)
    }
}

/// The worker and its event stand as they were, and nothing is asked.
pub open spec fn ignored(w1: Worker, w2: Worker, a: Action) -> bool {
    w2 == w1 && a is Ignore
}

/// `w2` holds `task` with report `r` in the cleanup phase, queue untouched,
/// and asks for the cleanup pass.
pub open spec fn cleans_up_with(
    w1: Worker,
    w2: Worker,
    a: Action,
    task: TestTask,
    status: TestStatus,
    output: Seq<char>,
    error: Option<Seq<char>>,
) -> bool {
    &&& w2.queue@ == w1.queue@
    &&& w2.phase matches Phase::CleaningUp { task: t, report } && t == task && is_report(
        report,
        status,
        output,
        error,
    )
    &&& a is Cleanup
}

/// `w2` concludes `task` without a process having run: it writes an `Error`
/// record with the diagnostic `error` and no output.
pub open spec fn fails_early(
    w1: Worker,
    w2: Worker,
    a: Action,
    task: TestTask,
    error: Seq<char>,
) -> bool {
    &&& w2.queue@ == w1.queue@
    &&& w2.phase matches Phase::Saving { task: t, report } && t == task && is_report(
        report,
        TestStatus::Error,
        Seq::empty(),
        Some(error),
    ) && writes_report(a, task, report)
}

/// One transition of the engine: from worker `w1` and event `ev` to worker
/// `w2` and action `a`.
pub open spec fn stepped(w1: Worker, ev: Event, w2: Worker, a: Action) -> bool {
    match w1.phase {
        Phase::Idle => match ev {
            Event::Tick => took_next(w1, w2, a),
            _ => ignored(w1, w2, a),
        },
        Phase::MarkingRunning { task } => match ev {
            Event::Written(ok) => if ok {
                &&& w2.queue@ == w1.queue@
                &&& w2.phase == (Phase::Validating { task })
                &&& a matches Action::CheckDirs { work_dir } && work_dir@ == task.work_dir@
            } else {
                took_next(w1, w2, a)
            },
            _ => ignored(w1, w2, a),
        },
        Phase::Validating { task } => match ev {
            Event::Dirs { work_dir_exists, build_dir_exists } => if !work_dir_exists {
                fails_early(w1, w2, a, task, missing_dir_message(task.work_dir@))
            } else if !build_dir_exists {
                fails_early(w1, w2, a, task, missing_build_dir_message(task.work_dir@))
            } else {
                &&& w2.queue@ == w1.queue@
                &&& w2.phase == (Phase::Spawning { task })
                &&& a matches Action::Spawn { work_dir } && work_dir@ == task.work_dir@
            },
            _ => ignored(w1, w2, a),
        },
        Phase::Spawning { task } => match ev {
            Event::Spawned => {
                &&& w2.queue@ == w1.queue@
                &&& w2.phase matches Phase::Streaming { task: t, output } && t == task && output@
                    == Seq::<char>::empty()
                &&& a is Read
            },
            Event::SpawnFailed(cause) => fails_early(
                w1,
                w2,
                a,
                task,
                spawn_failed_message(cause@),
            ),
            _ => ignored(w1, w2, a),
        },
        Phase::Streaming { task, output } => match ev {
            Event::Chunk(bytes) => {
                let o = output@ + utf8_lossy(bytes@);
                &&& w2.queue@ == w1.queue@
                &&& w2.phase matches Phase::Persisting { task: t, output: o2, done } && t == task
                    && o2@ == o && done == has_marker(o)
                &&& writes(a, task.id, TestStatus::Running, Some(o), None)
            },
            Event::Eof => cleans_up_with(w1, w2, a, task, end_status(output@), output@, None),
            Event::ReadFailed(cause) => cleans_up_with(
                w1,
                w2,
                a,
                task,
                TestStatus::Error,
                output@,
                Some(read_failed_message(cause@)),
            ),
            Event::TimedOut => cleans_up_with(
                w1,
                w2,
                a,
                task,
                TestStatus::Error,
                output@,
                Some(timeout_message()),
            ),
            _ => ignored(w1, w2, a),
        },
        Phase::Persisting { task, output, done } => match ev {
            Event::Written(_) => if done {
                cleans_up_with(w1, w2, a, task, end_status(output@), output@, None)
            } else {
                &&& w2.queue@ == w1.queue@
                &&& w2.phase == (Phase::Streaming { task, output })
                &&& a is Read
            },
            _ => ignored(w1, w2, a),
        },
        Phase::CleaningUp { task, report } => match ev {
            Event::CleanedUp => {
                &&& w2.queue@ == w1.queue@
                &&& w2.phase == (Phase::Saving { task, report })
                &&& writes_report(a, task, report)
            },
            _ => ignored(w1, w2, a),
        },
        Phase::Saving { task, report } => match ev {
            Event::Written(_) => took_next(w1, w2, a),
            _ => ignored(w1, w2, a),
        },
    }
}

/// `prefix` followed by `detail`.
fn joined(prefix: &str, detail: &str) -> (r: String)
    ensures
        r@ == prefix@ + detail@,
{
    let mut r = String::from_str(prefix);
    r.append(detail);
    r
}

/// A copy of an optional text.
fn copy_text(s: &Option<String>) -> (r: Option<String>)
    ensures
        text_of(r) == text_of(*s),
{
    match s {
        Some(t) => Some(t.clone()),
        None => None,
    }
}

impl Worker {
    /// An idle worker with an empty queue.
    pub fn new() -> (r: Worker)
        ensures
            r.queue@ == Seq::<TestTask>::empty(),
            r.phase is Idle,
    {
        Worker { queue: TestQueue::new(), phase: Phase::Idle }
    }

    /// Adds a job at the tail of the queue; the job in hand is untouched.
    pub fn enqueue(&mut self, task: TestTask)
        ensures
            final(self).queue@ == old(self).queue@.push(task),
            final(self).phase == old(self).phase,
    {
        self.queue.add_task(task);
    }

    fn take_next(&mut self) -> (a: Action)
        ensures
            took_next(*old(self), *final(self), a),
    {
        match self.queue.pop_task() {
            Some(task) => {
                let id = task.id;
                self.phase = Phase::MarkingRunning { task };
                Action::Write { id, status: TestStatus::Running, output: None, error: None }
            },
            None => {
                self.phase = Phase::Idle;
                Action::Sleep
            },
        }
    }

    /// Early conclusion of `task` with diagnostic `error`.
    fn fail_early(&mut self, task: TestTask, error: String) -> (a: Action)
        ensures
            fails_early(*old(self), *final(self), a, task, error@),
    {
        let id = task.id;
        let e = error.clone();
        self.phase = Phase::Saving {
            task,
            report: RunReport { status: TestStatus::Error, output: String::new(), error: Some(error) },
        };
        Action::Write { id, status: TestStatus::Error, output: Some(String::new()), error: Some(e) }
    }

    /// Moves to cleanup holding `task` and `report`.
    fn clean_up(&mut self, task: TestTask, report: RunReport) -> (a: Action)
        ensures
            final(self).queue@ == old(self).queue@,
            final(self).phase == (Phase::CleaningUp { task, report }),
            a is Cleanup,
    {
        self.phase = Phase::CleaningUp { task, report };
        Action::Cleanup
    }

    /// Advances the engine by one event and says what to do next.
    ///
    /// A job leaves the queue only when no other job is held, or when the
    /// held one was concluded (its final record written) or abandoned (its
    /// `Running` record could not be written); so at most one job is ever
    /// running. A job that was started is concluded only after the cleanup
    /// pass, whichever way its output ended.
    pub fn step(&mut self, ev: Event) -> (a: Action)
        ensures
            stepped(*old(self), ev, *final(self), a),
            final(self).queue@.len() < old(self).queue@.len() ==> old(self).phase is Idle || (
            old(self).phase is Saving && ev is Written) || (old(self).phase is MarkingRunning
                && ev == Event::Written(false)),
            final(self).queue@ == old(self).queue@ || final(self).queue@ == old(
                self,
            ).queue@.subrange(1, old(self).queue@.len() as int),
            written_status(a) == Some(TestStatus::Running) ==> held(final(self).phase) is Some
                && held(final(self).phase)->0.id == written_id(a),
            written_status(a) is Some && written_status(a)->0.is_terminal() ==> old(self).phase
                is CleaningUp || old(self).phase is Validating || old(self).phase is Spawning,
    {
        let mut phase = Phase::Idle;
        core::mem::swap(&mut self.phase, &mut phase);
        match phase {
            Phase::Idle => match ev {
                Event::Tick => self.take_next(),
                _ => {
                    self.phase = Phase::Idle;
                    Action::Ignore
                },
            },
            Phase::MarkingRunning { task } => match ev {
                Event::Written(ok) => {
                    if ok {
                        let work_dir = task.work_dir.clone();
                        self.phase = Phase::Validating { task };
                        Action::CheckDirs { work_dir }
                    } else {
                        self.take_next()
                    }
                },
                _ => {
                    self.phase = Phase::MarkingRunning { task };
                    Action::Ignore
                },
            },
            Phase::Validating { task } => match ev {
                Event::Dirs { work_dir_exists, build_dir_exists } => {
                    if !work_dir_exists {
                        let e = joined("工作目录不存在: ", task.work_dir.as_str());
                        self.fail_early(task, e)
                    } else if !build_dir_exists {
                        let mut e = joined("OS目录不存在: ", task.work_dir.as_str());
                        e.append("/os");
                        self.fail_early(task, e)
                    } else {
                        let work_dir = task.work_dir.clone();
                        self.phase = Phase::Spawning { task };
                        Action::Spawn { work_dir }
                    }
                },
                _ => {
                    self.phase = Phase::Validating { task };
                    Action::Ignore
                },
            },
            Phase::Spawning { task } => match ev {
                Event::Spawned => {
                    self.phase = Phase::Streaming { task, output: String::new() };
                    Action::Read
                },
                Event::SpawnFailed(cause) => {
                    let e = joined("进程启动失败: ", cause.as_str());
                    self.fail_early(task, e)
                },
                _ => {
                    self.phase = Phase::Spawning { task };
                    Action::Ignore
                },
            },
            Phase::Streaming { task, output } => match ev {
                Event::Chunk(bytes) => {
                    let text = decode_chunk(&bytes);
                    let mut output = output;
                    output.append(text.as_str());
                    let done = contains_text(output.as_str(), SUCCESS_MARKER) || contains_text(
                        output.as_str(),
                        FAILURE_MARKER,
                    );
                    let id = task.id;
                    let copy = output.clone();
                    self.phase = Phase::Persisting { task, output, done };
                    Action::Write {
                        id,
                        status: TestStatus::Running,
                        output: Some(copy),
                        error: None,
                    }
                },
                Event::Eof => {
                    let status = if contains_text(output.as_str(), SUCCESS_MARKER) {
                        TestStatus::Passed
                    } else {
                        TestStatus::Failed
                    };
                    self.clean_up(task, RunReport { status, output, error: None })
                },
                Event::ReadFailed(cause) => {
                    let e = joined("读取输出失败: ", cause.as_str());
                    self.clean_up(
                        task,
                        RunReport { status: TestStatus::Error, output, error: Some(e) },
                    )
                },
                Event::TimedOut => {
                    let e = String::from_str("测试执行超时");
                    self.clean_up(
                        task,
                        RunReport { status: TestStatus::Error, output, error: Some(e) },
                    )
                },
                _ => {
                    self.phase = Phase::Streaming { task, output };
                    Action::Ignore
                },
            },
            Phase::Persisting { task, output, done } => match ev {
                Event::Written(_) => {
                    if done {
                        let status = if contains_text(output.as_str(), SUCCESS_MARKER) {
                            TestStatus::Passed
                        } else {
                            TestStatus::Failed
                        };
                        self.clean_up(task, RunReport { status, output, error: None })
                    } else {
                        self.phase = Phase::Streaming { task, output };
                        Action::Read
                    }
                },
                _ => {
                    self.phase = Phase::Persisting { task, output, done };
                    Action::Ignore
                },
            },
            Phase::CleaningUp { task, report } => match ev {
                Event::CleanedUp => {
                    let id = task.id;
                    let status = report.status;
                    let output = report.output.clone();
                    let error = copy_text(&report.error);
                    self.phase = Phase::Saving { task, report };
                    Action::Write { id, status, output: Some(output), error }
                },
                _ => {
                    self.phase = Phase::CleaningUp { task, report };
                    Action::Ignore
                },
            },
            Phase::Saving { task, report } => match ev {
                Event::Written(_) => self.take_next(),
                _ => {
                    self.phase = Phase::Saving { task, report };
                    Action::Ignore
                },
            },
        }
    }
}

/// The output a step writes, if it writes one.
pub open spec fn written_output(a: Action) -> Option<Seq<char>> {
    match a {
        Action::Write { output, .. } => text_of(output),
        _ => None,
    }
}

/// A job whose directory is missing is concluded with `Error` and the
/// missing-directory diagnostic, and no process is started or cleaned up.
pub proof fn lemma_missing_dir_never_spawns(
    w1: Worker,
    build_dir_exists: bool,
    w2: Worker,
    a: Action,
)
    requires
        w1.phase is Validating,
        stepped(w1, Event::Dirs { work_dir_exists: false, build_dir_exists }, w2, a),
    ensures
        !(a is Spawn) && !(a is Cleanup),
        written_status(a) == Some(TestStatus::Error),
        w2.phase matches Phase::Saving { task, report } && text_of(report.error) == Some(
            missing_dir_message(task.work_dir@),
        ),
{
}

/// Output that holds the success marker ends streaming at once; after the
/// cleanup pass the job is written as `Passed`, with no diagnostic and with
/// all output read up to and including the chunk in which the marker appeared.
pub proof fn lemma_success_marker_passes(
    w1: Worker,
    bytes: Vec<u8>,
    w2: Worker,
    a1: Action,
    ok: bool,
    w3: Worker,
    a2: Action,
    w4: Worker,
    a3: Action,
)
    requires
        w1.phase is Streaming,
        contains(w1.phase->Streaming_output@ + utf8_lossy(bytes@), SUCCESS_MARKER@),
        stepped(w1, Event::Chunk(bytes), w2, a1),
        stepped(w2, Event::Written(ok), w3, a2),
        stepped(w3, Event::CleanedUp, w4, a3),
    ensures
        a2 is Cleanup,
        written_status(a3) == Some(TestStatus::Passed),
        written_output(a3) == Some(w1.phase->Streaming_output@ + utf8_lossy(bytes@)),
        a3 matches Action::Write { error, .. } && error is None,
{
}

/// A process that closes its output without the success marker having
/// appeared leaves its job `Failed`, after the cleanup pass.
pub proof fn lemma_eof_without_marker_fails(
    w1: Worker,
    w2: Worker,
    a1: Action,
    w3: Worker,
    a2: Action,
)
    requires
        w1.phase is Streaming,
        !contains(w1.phase->Streaming_output@, SUCCESS_MARKER@),
        stepped(w1, Event::Eof, w2, a1),
        stepped(w2, Event::CleanedUp, w3, a2),
    ensures
        a1 is Cleanup,
        written_status(a2) == Some(TestStatus::Failed),
{
}

/// A job whose time limit passes ends in `Error` with the timeout diagnostic,
/// and the cleanup pass still runs before that record is written.
pub proof fn lemma_timeout_errors_after_cleanup(
    w1: Worker,
    w2: Worker,
    a1: Action,
    w3: Worker,
    a2: Action,
)
    requires
        w1.phase is Streaming,
        stepped(w1, Event::TimedOut, w2, a1),
        stepped(w2, Event::CleanedUp, w3, a2),
    ensures
        a1 is Cleanup,
        written_status(a2) == Some(TestStatus::Error),
        a2 matches Action::Write { error, .. } && text_of(error) == Some(timeout_message()),
{
}

/// Progress records never lose output: of two successive progress writes of
/// a running job, the later one's output extends the earlier one's by exactly
/// the text of the chunk read in between.
pub proof fn lemma_progress_never_loses_output(
    w1: Worker,
    b1: Vec<u8>,
    w2: Worker,
    a1: Action,
    ok: bool,
    w3: Worker,
    a2: Action,
    b2: Vec<u8>,
    w4: Worker,
    a3: Action,
)
    requires
        w1.phase is Streaming,
        stepped(w1, Event::Chunk(b1), w2, a1),
        stepped(w2, Event::Written(ok), w3, a2),
        w3.phase is Streaming,
        stepped(w3, Event::Chunk(b2), w4, a3),
    ensures
        written_status(a1) == Some(TestStatus::Running),
        written_status(a3) == Some(TestStatus::Running),
        written_output(a1) is Some && written_output(a3) == Some(
            written_output(a1)->0 + utf8_lossy(b2@),
        ),
{
}

} // verus!
