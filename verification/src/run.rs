//! One run of the highlighter as a state machine: the caller performs each
//! [`Action`] and reports what happened as an [`Event`].

use crate::config::BinPath;
use crate::decode::{decode, decode_lossy, decoded, decoded_lossy};
use crate::error::{
    spawn_failure, ExitStatus, ExitStatusView, OsError, OsErrorKind, OsErrorView, PygmentizeError,
    PygmentizeErrorView,
};
use crate::invocation::{Invocation, InvocationView};
use vstd::prelude::*;
use vstd::utf8::{decode_utf8, decode_utf8_encode_utf8, encode_utf8, valid_utf8};

verus! {

/// Everything that a finished child process left behind.
#[derive(Clone, Debug, PartialEq, Eq)]
pub struct Output {
    pub status: ExitStatus,
    pub stdout: Vec<u8>,
    pub stderr: Vec<u8>,
}

/// The mathematical value of an [`Output`].
pub struct OutputView {
    pub status: ExitStatusView,
    pub stdout: Seq<u8>,
    pub stderr: Seq<u8>,
}

impl View for Output {
    type V = OutputView;

    open spec fn view(&self) -> OutputView {
        OutputView { status: self.status@, stdout: self.stdout@, stderr: self.stderr@ }
    }
}

/// The value of a run's result.
pub open spec fn outcome_view(outcome: Result<String, PygmentizeError>) -> Result<
    Seq<char>,
    PygmentizeErrorView,
> {
    match outcome {
        Ok(text) => Ok(text@),
        Err(failure) => Err(failure@),
    }
}

/// What a finished child amounts to. A child that did not succeed is a
/// failure that carries its status and its error stream as text, decoded
/// lossily where it is not UTF-8. A child that succeeded gives its output
/// as text, or the decoding failure where the output is not UTF-8.
pub open spec fn concluded(output: OutputView) -> Result<Seq<char>, PygmentizeErrorView> {
    if !output.status.success() {
        Err(PygmentizeErrorView::Pygmentize(output.status, decoded_lossy(output.stderr)))
    } else {
        match decoded(output.stdout) {
            Ok(text) => Ok(text),
            Err(failure) => Err(PygmentizeErrorView::InvalidUtf8(failure)),
        }
    }
}

/// Decides how a run ends, from what the finished child left behind.
pub fn conclude(output: Output) -> (outcome: Result<String, PygmentizeError>)
    ensures
        outcome_view(outcome) == concluded(output@),
{
    if !output.status.success() {
        let stderr = decode_lossy(output.stderr);
        Err(PygmentizeError::tool_failure(output.status, stderr))
    } else {
        match decode(output.stdout) {
            Ok(text) => Ok(text),
            Err(failure) => Err(PygmentizeError::InvalidUtf8(failure)),
        }
    }
}

/// What the caller is asked to do next.
#[derive(Debug, PartialEq, Eq)]
pub enum Action {
    /// Start `program` with `args`, its output and error streams captured.
    /// Its input is a pipe where `pipe_stdin` holds and closed otherwise.
    Spawn { program: String, args: Vec<String>, pipe_stdin: bool },
    /// Write all of the text to the child's input and flush it.
    Write(String),
    /// Close the child's input, wait until the child has ended and collect
    /// all that it wrote.
    Wait,
    /// Switch the interpretation of escape sequences in the caller's own
    /// terminal back on, where running the child can switch it off. This
    /// cannot fail: whatever goes wrong with it is ignored.
    RestoreTerminal,
    /// The run is over, with this result.
    Finish(Result<String, PygmentizeError>),
}

/// The mathematical value of an [`Action`].
pub enum ActionView {
    Spawn { program: Seq<char>, args: Seq<Seq<char>>, pipe_stdin: bool },
    Write(Seq<char>),
    Wait,
    RestoreTerminal,
    Finish(Result<Seq<char>, PygmentizeErrorView>),
}

impl View for Action {
    type V = ActionView;

    open spec fn view(&self) -> ActionView {
        match self {
            Action::Spawn { program, args, pipe_stdin } => ActionView::Spawn {
                program: program@,
                args: args.deep_view(),
                pipe_stdin: *pipe_stdin,
            },
            Action::Write(text) => ActionView::Write(text@),
            Action::Wait => ActionView::Wait,
            Action::RestoreTerminal => ActionView::RestoreTerminal,
            Action::Finish(outcome) => ActionView::Finish(outcome_view(*outcome)),
        }
    }
}

/// What happened when the caller performed the last action.
#[derive(Clone, Debug, PartialEq, Eq)]
pub enum Event {
    /// The child process runs.
    Spawned,
    /// The child process could not be started.
    SpawnFailed(OsError),
    /// The child's input holds all of the text and was flushed.
    Written,
    /// Writing to the child's input, or flushing it, failed.
    WriteFailed(OsError),
    /// The child has ended.
    Exited(Output),
    /// Waiting for the child, or collecting what it wrote, failed.
    WaitFailed(OsError),
    /// The terminal was looked after.
    TerminalRestored,
}

/// The mathematical value of an [`Event`].
pub enum EventView {
    Spawned,
    SpawnFailed(OsErrorView),
    Written,
    WriteFailed(OsErrorView),
    Exited(OutputView),
    WaitFailed(OsErrorView),
    TerminalRestored,
}

impl View for Event {
    type V = EventView;

    open spec fn view(&self) -> EventView {
        match self {
            Event::Spawned => EventView::Spawned,
            Event::SpawnFailed(err) => EventView::SpawnFailed(err@),
            Event::Written => EventView::Written,
            Event::WriteFailed(err) => EventView::WriteFailed(err@),
            Event::Exited(output) => EventView::Exited(output@),
            Event::WaitFailed(err) => EventView::WaitFailed(err@),
            Event::TerminalRestored => EventView::TerminalRestored,
        }
    }
}

/// Where a run stands.
#[derive(Clone, Debug, PartialEq, Eq)]
pub enum Run {
    /// The child is being started; the text for its input waits here.
    Spawning(Option<String>),
    /// The child runs and its input is being written.
    Writing,
    /// The child runs and has all its input.
    Waiting,
    /// The child has ended and left this behind.
    Restoring(Output),
    /// The run is over.
    Done,
}

/// The mathematical value of a [`Run`].
pub enum RunView {
    Spawning(Option<Seq<char>>),
    Writing,
    Waiting,
    Restoring(OutputView),
    Done,
}

impl View for Run {
    type V = RunView;

    open spec fn view(&self) -> RunView {
        match self {
            Run::Spawning(stdin) => RunView::Spawning(stdin.deep_view()),
            Run::Writing => RunView::Writing,
            Run::Waiting => RunView::Waiting,
            Run::Restoring(output) => RunView::Restoring(output@),
            Run::Done => RunView::Done,
        }
    }
}

/// How a run begins: the executable is the one that is set at this moment,
/// and the child gets an input pipe exactly when there is input for it.
pub open spec fn started(invocation: InvocationView, program: Seq<char>) -> (RunView, ActionView) {
    (
        RunView::Spawning(invocation.stdin),
        ActionView::Spawn {
            program,
            args: invocation.args,
            pipe_stdin: invocation.stdin is Some,
        },
    )
}

/// The transitions of a run. Each phase awaits the outcome of its own
/// action and nothing else; the first failure ends the run, and no action is
/// ever asked for twice.
pub open spec fn stepped(run: RunView, event: EventView) -> Option<(RunView, ActionView)> {
    match (run, event) {
        (RunView::Spawning(Some(text)), EventView::Spawned) => Some(
            (RunView::Writing, ActionView::Write(text)),
        ),
        (RunView::Spawning(None), EventView::Spawned) => Some((RunView::Waiting, ActionView::Wait)),
        (RunView::Spawning(_), EventView::SpawnFailed(err)) => Some(
            (RunView::Done, ActionView::Finish(Err(spawn_failure(err)))),
        ),
        (RunView::Writing, EventView::Written) => Some((RunView::Waiting, ActionView::Wait)),
        (RunView::Writing, EventView::WriteFailed(err)) => Some(
            (RunView::Done, ActionView::Finish(Err(PygmentizeErrorView::Io(err)))),
        ),
        (RunView::Waiting, EventView::Exited(output)) => Some(
            (RunView::Restoring(output), ActionView::RestoreTerminal),
        ),
        (RunView::Waiting, EventView::WaitFailed(err)) => Some(
            (RunView::Done, ActionView::Finish(Err(PygmentizeErrorView::Io(err)))),
        ),
        (RunView::Restoring(output), EventView::TerminalRestored) => Some(
            (RunView::Done, ActionView::Finish(concluded(output))),
        ),
        _ => None,
    }
}

impl Run {
    /// Begins a run of `invocation` with the executable that `setting`
    /// names now.
    pub fn start(invocation: Invocation, setting: &BinPath) -> (first: (Run, Action))
        ensures
            (first.0@, first.1@) == started(invocation@, setting@),
    {
        let pipe_stdin = invocation.stdin.is_some();
        let action = Action::Spawn {
            program: setting.as_str().to_owned(),
            args: invocation.args,
            pipe_stdin,
        };
        (Run::Spawning(invocation.stdin), action)
    }

    /// Takes the outcome of the last action and says what to do next.
    /// `None` when the event is not an outcome of the action that this
    /// phase asked for.
    pub fn step(self, event: Event) -> (next: Option<(Run, Action)>)
        ensures
            match next {
                Some((run, action)) => stepped(self@, event@) == Some((run@, action@)),
                None => stepped(self@, event@) is None,
            },
    {
        match (self, event) {
            (Run::Spawning(Some(text)), Event::Spawned) => Some((Run::Writing, Action::Write(text))),
            (Run::Spawning(None), Event::Spawned) => Some((Run::Waiting, Action::Wait)),
            (Run::Spawning(_), Event::SpawnFailed(err)) => Some(
                (Run::Done, Action::Finish(Err(PygmentizeError::from_spawn(err)))),
            ),
            (Run::Writing, Event::Written) => Some((Run::Waiting, Action::Wait)),
            (Run::Writing, Event::WriteFailed(err)) => Some(
                (Run::Done, Action::Finish(Err(PygmentizeError::Io(err)))),
            ),
            (Run::Waiting, Event::Exited(output)) => Some(
                (Run::Restoring(output), Action::RestoreTerminal),
            ),
            (Run::Waiting, Event::WaitFailed(err)) => Some(
                (Run::Done, Action::Finish(Err(PygmentizeError::Io(err)))),
            ),
            (Run::Restoring(output), Event::TerminalRestored) => Some(
                (Run::Done, Action::Finish(conclude(output))),
            ),
            _ => None,
        }
    }
}

/// Once the executable was set to `path`, a run that starts is asked to
/// start `path`: whatever the setting held before, and whenever the
/// invocation was prepared. `after` is the setting as
/// [`set_bin_path`](crate::set_bin_path) leaves it.
pub proof fn lemma_start_uses_path_set(
    before: BinPath,
    path: Seq<char>,
    after: BinPath,
    invocation: InvocationView,
)
    requires
        after@ == path,
    ensures
        started(invocation, after@).1 == (ActionView::Spawn {
            program: path,
            args: invocation.args,
            pipe_stdin: invocation.stdin is Some,
        }),
{
}

/// A child that cannot be started because its executable does not exist
/// ends the run at once as `NotFound`, never as a plain spawn failure; and
/// any other spawn error is never `NotFound`.
pub proof fn lemma_missing_executable(stdin: Option<Seq<char>>, err: OsErrorView)
    ensures
        err.kind == OsErrorKind::NotFound ==> stepped(
            RunView::Spawning(stdin),
            EventView::SpawnFailed(err),
        ) == Some((RunView::Done, ActionView::Finish(Err(PygmentizeErrorView::NotFound(err))))),
        err.kind != OsErrorKind::NotFound ==> stepped(
            RunView::Spawning(stdin),
            EventView::SpawnFailed(err),
        ) == Some((RunView::Done, ActionView::Finish(Err(PygmentizeErrorView::Process(err))))),
{
}

/// A child that succeeded and wrote UTF-8 gives exactly the text that it
/// wrote, whatever its length: encoded again, the text is the output byte
/// for byte. An empty output is the empty text.
pub proof fn lemma_success_is_whole_output(output: OutputView)
    requires
        output.status.success(),
        valid_utf8(output.stdout),
    ensures
        concluded(output) == Ok::<Seq<char>, PygmentizeErrorView>(decode_utf8(output.stdout)),
        encode_utf8(decode_utf8(output.stdout)) == output.stdout,
        output.stdout.len() == 0 ==> concluded(output) == Ok::<Seq<char>, PygmentizeErrorView>(
            Seq::empty(),
        ),
{
    decode_utf8_encode_utf8(output.stdout);
}

/// A child that did not succeed is a failure of the highlighter, whatever
/// it wrote to its output: the failure carries the child's status as it
/// was and all of its error stream as text, which is the decoded stream
/// itself where that is UTF-8.
pub proof fn lemma_failure_carries_status_and_stderr(output: OutputView)
    requires
        !output.status.success(),
    ensures
        concluded(output) == Err::<Seq<char>, PygmentizeErrorView>(
            PygmentizeErrorView::Pygmentize(output.status, decoded_lossy(output.stderr)),
        ),
        valid_utf8(output.stderr) ==> decoded_lossy(output.stderr) == decode_utf8(output.stderr)
            && encode_utf8(decoded_lossy(output.stderr)) == output.stderr,
{
    if valid_utf8(output.stderr) {
        decode_utf8_encode_utf8(output.stderr);
    }
}

/// A run with input goes through its phases in one order: the child is
/// started with a pipe for its input, the whole input is written before
/// the child is waited for, the terminal is looked after once the child has
/// ended, and only then the run ends, with what the child's output amounts
/// to.
pub proof fn lemma_run_with_input(
    args: Seq<Seq<char>>,
    input: Seq<char>,
    program: Seq<char>,
    output: OutputView,
)
    ensures
        ({
            let (spawning, spawn) = started(InvocationView { args, stdin: Some(input) }, program);
            &&& spawn == ActionView::Spawn { program, args, pipe_stdin: true }
            &&& stepped(spawning, EventView::Spawned) matches Some((writing, write))
            &&& write == ActionView::Write(input)
            &&& stepped(writing, EventView::Written) matches Some((waiting, wait))
            &&& wait == ActionView::Wait
            &&& stepped(waiting, EventView::Exited(output)) matches Some((restoring, restore))
            &&& restore == ActionView::RestoreTerminal
            &&& stepped(restoring, EventView::TerminalRestored) matches Some((done, finish))
            &&& finish == ActionView::Finish(concluded(output))
            &&& done == RunView::Done
        }),
{
}

/// A run without input starts the child with its input closed and waits
/// for it at once.
pub proof fn lemma_run_without_input(args: Seq<Seq<char>>, program: Seq<char>, output: OutputView)
    ensures
        ({
            let (spawning, spawn) = started(InvocationView { args, stdin: None }, program);
            &&& spawn == ActionView::Spawn { program, args, pipe_stdin: false }
            &&& stepped(spawning, EventView::Spawned) matches Some((waiting, wait))
            &&& wait == ActionView::Wait
            &&& stepped(waiting, EventView::Exited(output)) matches Some((restoring, restore))
            &&& restore == ActionView::RestoreTerminal
            &&& stepped(restoring, EventView::TerminalRestored) matches Some((done, finish))
            &&& finish == ActionView::Finish(concluded(output))
            &&& done == RunView::Done
        }),
{
}

/// How many events a run can still take before it is over.
pub open spec fn steps_left(run: RunView) -> nat {
    match run {
        RunView::Spawning(_) => 4,
        RunView::Writing => 3,
        RunView::Waiting => 2,
        RunView::Restoring(_) => 1,
        RunView::Done => 0,
    }
}

/// Nothing is tried twice: every event that a run takes brings it nearer
/// to its end, so a run is over after four events at most. It ends with
/// the action that finishes it, at the first error of the operating system
/// if there is one, and takes no event after that.
pub proof fn lemma_no_retries(run: RunView, event: EventView)
    ensures
        stepped(run, event) matches Some((next, _)) ==> steps_left(next) < steps_left(run),
        stepped(run, event) matches Some((next, action)) ==> (next == RunView::Done
            <==> action is Finish),
        stepped(run, event) matches Some((next, _)) ==> (event is SpawnFailed
            || event is WriteFailed || event is WaitFailed) ==> next == RunView::Done,
        stepped(RunView::Done, event) is None,
{
}

/// Each way in which a run ends has one cause. The executable is reported
/// missing only when starting it failed for that reason, and a spawn
/// failure only when starting it failed for another. An input or output
/// failure comes from writing the input or from waiting for the child. A
/// failure of the highlighter comes from a child that has ended without
/// success, an encoding failure from one that succeeded with output that
/// is not UTF-8, and the text from one that succeeded with output that is.
pub proof fn lemma_outcome_has_one_cause(run: RunView, event: EventView)
    ensures
        stepped(run, event) matches Some((_, ActionView::Finish(outcome))) ==> match outcome {
            Err(PygmentizeErrorView::NotFound(err)) => {
                &&& run is Spawning
                &&& event == EventView::SpawnFailed(err)
                &&& err.kind == OsErrorKind::NotFound
            },
            Err(PygmentizeErrorView::Process(err)) => {
                &&& run is Spawning
                &&& event == EventView::SpawnFailed(err)
                &&& err.kind != OsErrorKind::NotFound
            },
            Err(PygmentizeErrorView::Io(err)) => {
                ||| run is Writing && event == EventView::WriteFailed(err)
                ||| run is Waiting && event == EventView::WaitFailed(err)
            },
            Err(PygmentizeErrorView::Pygmentize(status, stderr)) => {
                &&& run matches RunView::Restoring(output)
                &&& event is TerminalRestored
                &&& !output.status.success()
                &&& status == output.status
                &&& stderr == decoded_lossy(output.stderr)
            },
            Err(PygmentizeErrorView::InvalidUtf8(failure)) => {
                &&& run matches RunView::Restoring(output)
                &&& event is TerminalRestored
                &&& output.status.success()
                &&& !valid_utf8(output.stdout)
                &&& failure.bytes == output.stdout
            },
            Ok(text) => {
                &&& run matches RunView::Restoring(output)
                &&& event is TerminalRestored
                &&& output.status.success()
                &&& valid_utf8(output.stdout)
                &&& text == decode_utf8(output.stdout)
            },
        },
{
}

} // verus!
