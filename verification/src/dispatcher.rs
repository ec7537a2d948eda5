//! The command dispatcher: the run of one command against a session's
//! sandbox, as a machine that is moved by events. The machine decides; its
//! caller performs the action that it asks for and comes back with what
//! happened.

use crate::command::{
    change_target, is_clear, is_clear_command, is_directory_change, is_interactive,
};
use crate::docker_vm::{current_time, DockerVmManager, RuntimeCall};
use crate::error::{EngineError, ErrorView};
use crate::paths::{home_directory, resolved};
use crate::session::{CommandExecution, ExecutionView, SessionView, Timestamp, VmStatus};
use crate::store::{registry_wf, AppState};
use vstd::prelude::*;
use vstd::string::StringExecFns;

verus! {

/// Polls that may find a session not ready before a run gives up.
pub const MAX_READINESS_POLLS: u32 = 20;

/// Milliseconds between two polls for readiness.
pub const READINESS_POLL_MILLIS: u64 = 500;

/// Seconds for which the output of a command that is not interactive is
/// read.
pub const OUTPUT_CEILING_SECS: u64 = 30;

/// The text that the runtime's bytes stand for, with each invalid sequence
/// replaced, as the standard library's lossy decoding of UTF-8 gives it.
pub uninterp spec fn lossy_text(bytes: Seq<u8>) -> Seq<char>;

/// Calls `String::from_utf8_lossy` and takes the text as an owned string.
/// The contract names what comes back: it depends on the bytes alone.
#[verifier::external_body]
pub(crate) fn decode_lossy(bytes: &[u8]) -> (text: String)
    ensures
        text@ == lossy_text(bytes@),
{
    String::from_utf8_lossy(bytes).into_owned()
}

/// One frame of a container's output stream, by the channel it came on.
#[derive(Clone, Debug, PartialEq, Eq)]
pub enum LogFrame {
    StdOut(Vec<u8>),
    StdErr(Vec<u8>),
    StdIn(Vec<u8>),
    Console(Vec<u8>),
}

impl LogFrame {
    /// The bytes that the frame carries, whatever its channel.
    pub open spec fn payload(self) -> Seq<u8> {
        match self {
            LogFrame::StdOut(m) => m@,
            LogFrame::StdErr(m) => m@,
            LogFrame::StdIn(m) => m@,
            LogFrame::Console(m) => m@,
        }
    }

    /// The text of the frame.
    pub fn text(&self) -> (text: String)
        ensures
            text@ == lossy_text(self.payload()),
    {
        match self {
            LogFrame::StdOut(m) => decode_lossy(m.as_slice()),
            LogFrame::StdErr(m) => decode_lossy(m.as_slice()),
            LogFrame::StdIn(m) => decode_lossy(m.as_slice()),
            LogFrame::Console(m) => decode_lossy(m.as_slice()),
        }
    }
}

/// The texts of a list, one after another.
pub open spec fn concatenated(pieces: Seq<Seq<char>>) -> Seq<char>
    decreases pieces.len(),
{
    if pieces.len() == 0 {
        Seq::empty()
    } else {
        concatenated(pieces.drop_last()) + pieces.last()
    }
}

/// The text of each frame of a list.
pub open spec fn frame_texts(frames: Seq<LogFrame>) -> Seq<Seq<char>> {
    Seq::new(frames.len(), |i: int| lossy_text(frames[i].payload()))
}

/// The frames of all channels collapsed into one text, in their order. Each
/// frame is decoded by itself.
pub open spec fn collected(frames: Seq<LogFrame>) -> Seq<char> {
    concatenated(frame_texts(frames))
}

/// Writes the texts of a list one after another.
pub fn concatenate(pieces: &Vec<String>) -> (text: String)
    ensures
        text@ == concatenated(crate::docker_vm::texts(pieces@)),
{
    let mut text = String::new();
    let mut i: usize = 0;
    let ghost all = crate::docker_vm::texts(pieces@);
    proof {
        assert(all.take(0) =~= Seq::<Seq<char>>::empty());
    }
    while i < pieces.len()
        invariant
            i <= pieces.len(),
            all == crate::docker_vm::texts(pieces@),
            text@ == concatenated(all.take(i as int)),
        decreases pieces.len() - i,
    {
        proof {
            let next = all.take(i + 1);
            assert(next.drop_last() =~= all.take(i as int));
            assert(next.last() == pieces@[i as int]@);
        }
        text.append(pieces[i].as_str());
        i += 1;
    }
    proof {
        assert(all.take(all.len() as int) =~= all);
    }
    text
}

/// Decodes each frame of a list.
pub fn decode_frames(frames: &Vec<LogFrame>) -> (pieces: Vec<String>)
    ensures
        crate::docker_vm::texts(pieces@) == frame_texts(frames@),
{
    let mut pieces: Vec<String> = Vec::new();
    let mut i: usize = 0;
    while i < frames.len()
        invariant
            i <= frames.len(),
            pieces@.len() == i,
            forall|k: int| 0 <= k < i ==> (#[trigger] pieces@[k])@ == lossy_text(frames@[k].payload()),
        decreases frames.len() - i,
    {
        pieces.push(frames[i].text());
        i += 1;
    }
    proof {
        assert(crate::docker_vm::texts(pieces@) =~= frame_texts(frames@));
    }
    pieces
}

/// Collapses the frames of all channels into one text.
pub fn collect_output(frames: &Vec<LogFrame>) -> (text: String)
    ensures
        text@ == collected(frames@),
{
    concatenate(&decode_frames(frames))
}

/// Where a run stands.
#[derive(Clone, Copy, Debug, PartialEq, Eq, Structural)]
pub enum RunPhase {
    /// The session is awaited.
    Waiting,
    /// The container's state was asked for.
    CheckingContainer,
    /// An exec process was asked for.
    CreatingExec,
    /// The start of the exec process was asked for.
    StartingExec,
    /// The output is being read, or relayed.
    Reading,
    /// The exit code was asked for.
    InspectingExec,
    /// The run is over.
    Finished,
}

/// The run of one command.
#[derive(Debug, PartialEq, Eq)]
pub struct CommandRun {
    pub session_id: String,
    pub command: String,
    pub phase: RunPhase,
    /// Polls that found the session not ready.
    pub attempts: u32,
    pub container_id: String,
    /// The session's directory when the run began.
    pub current_dir: String,
    pub exec_id: String,
    pub output: String,
    pub started_at: Timestamp,
}

/// The mathematical model of a [`CommandRun`].
pub struct RunView {
    pub session_id: Seq<char>,
    pub command: Seq<char>,
    pub phase: RunPhase,
    pub attempts: u32,
    pub container_id: Seq<char>,
    pub current_dir: Seq<char>,
    pub exec_id: Seq<char>,
    pub output: Seq<char>,
    pub started_at: Timestamp,
}

impl View for CommandRun {
    type V = RunView;

    open spec fn view(&self) -> RunView {
        RunView {
            session_id: self.session_id@,
            command: self.command@,
            phase: self.phase,
            attempts: self.attempts,
            container_id: self.container_id@,
            current_dir: self.current_dir@,
            exec_id: self.exec_id@,
            output: self.output@,
            started_at: self.started_at,
        }
    }
}

impl RunView {
    /// A run that has not begun.
    pub open spec fn fresh(session_id: Seq<char>, command: Seq<char>) -> RunView {
        RunView {
            session_id,
            command,
            phase: RunPhase::Waiting,
            attempts: 0,
            container_id: Seq::empty(),
            current_dir: Seq::empty(),
            exec_id: Seq::empty(),
            output: Seq::empty(),
            started_at: Timestamp { secs: 0, nanos: 0 },
        }
    }
}

impl CommandRun {
    /// The run of `command` in the session `session_id`, before its first
    /// event.
    pub fn new(session_id: &str, command: &str) -> (run: CommandRun)
        ensures
            run@ == RunView::fresh(session_id@, command@),
    {
        CommandRun {
            session_id: String::from_str(session_id),
            command: String::from_str(command),
            phase: RunPhase::Waiting,
            attempts: 0,
            container_id: String::new(),
            current_dir: String::new(),
            exec_id: String::new(),
            output: String::new(),
            started_at: Timestamp { secs: 0, nanos: 0 },
        }
    }
}

/// What happened since the last action that a run asked for.
#[derive(Debug, PartialEq, Eq)]
pub enum ExecEvent {
    /// Nothing yet: the run begins.
    Started,
    /// The sleep that was asked for is over.
    Woke,
    /// The runtime call that was asked for failed, for the reason given.
    CallFailed(String),
    /// The container was inspected: whether it runs, where the runtime
    /// reported its state.
    ContainerState(Option<bool>),
    /// The exec process was created, with this id.
    ExecCreated(String),
    /// The exec process was started: whether its streams are attached.
    ExecAttached(bool),
    /// The output was read until the stream ended or failed, or until the
    /// ceiling passed.
    OutputRead { frames: Vec<LogFrame>, timed_out: bool },
    /// The exec process was inspected: its exit code, once it has ended.
    ExitCode(Option<i64>),
    /// The relay between the client and the exec process is over.
    RelayEnded,
}

/// The mathematical model of an [`ExecEvent`]. Of the output that was read
/// it holds the collected text.
pub enum EventView {
    Started,
    Woke,
    CallFailed(Seq<char>),
    ContainerState(Option<bool>),
    ExecCreated(Seq<char>),
    ExecAttached(bool),
    OutputRead { text: Seq<char>, timed_out: bool },
    ExitCode(Option<i64>),
    RelayEnded,
}

impl View for ExecEvent {
    type V = EventView;

    open spec fn view(&self) -> EventView {
        match self {
            ExecEvent::Started => EventView::Started,
            ExecEvent::Woke => EventView::Woke,
            ExecEvent::CallFailed(reason) => EventView::CallFailed(reason@),
            ExecEvent::ContainerState(running) => EventView::ContainerState(*running),
            ExecEvent::ExecCreated(id) => EventView::ExecCreated(id@),
            ExecEvent::ExecAttached(attached) => EventView::ExecAttached(*attached),
            ExecEvent::OutputRead { frames, timed_out } => EventView::OutputRead {
                text: collected(frames@),
                timed_out: *timed_out,
            },
            ExecEvent::ExitCode(code) => EventView::ExitCode(*code),
            ExecEvent::RelayEnded => EventView::RelayEnded,
        }
    }
}

/// The exec process that a run asks for.
#[derive(Debug, PartialEq, Eq)]
pub struct ExecRequest {
    pub container_id: String,
    /// The program and its arguments.
    pub command: Vec<String>,
    pub working_dir: String,
    pub user: String,
    pub tty: bool,
    pub attach_stdin: bool,
    pub attach_stdout: bool,
    pub attach_stderr: bool,
}

/// The mathematical model of an [`ExecRequest`].
pub struct RequestView {
    pub container_id: Seq<char>,
    pub command: Seq<Seq<char>>,
    pub working_dir: Seq<char>,
    pub user: Seq<char>,
    pub tty: bool,
    pub attach_stdin: bool,
    pub attach_stdout: bool,
    pub attach_stderr: bool,
}

impl View for ExecRequest {
    type V = RequestView;

    open spec fn view(&self) -> RequestView {
        RequestView {
            container_id: self.container_id@,
            command: crate::docker_vm::texts(self.command@),
            working_dir: self.working_dir@,
            user: self.user@,
            tty: self.tty,
            attach_stdin: self.attach_stdin,
            attach_stdout: self.attach_stdout,
            attach_stderr: self.attach_stderr,
        }
    }
}

/// The exec process that runs `command` in a container: through a shell, as
/// root, on a pseudo-terminal, with all three streams attached, in the
/// directory given.
pub open spec fn exec_request(container_id: Seq<char>, command: Seq<char>, working_dir: Seq<char>) -> RequestView {
    RequestView {
        container_id,
        command: seq!["bash"@, "-c"@, command],
        working_dir,
        user: "root"@,
        tty: true,
        attach_stdin: true,
        attach_stdout: true,
        attach_stderr: true,
    }
}

/// What a run asks its caller to do next.
#[derive(Debug, PartialEq, Eq)]
pub enum ExecAction {
    /// Sleep for so many milliseconds, then report `Woke`.
    Sleep(u64),
    /// Ask the runtime whether this container runs.
    InspectContainer(String),
    /// Create this exec process.
    CreateExec(ExecRequest),
    /// Start the exec process with this id, attached.
    StartExec(String),
    /// Read the output until the stream ends or fails, for at most so many
    /// seconds where a ceiling is given.
    ReadOutput(Option<u64>),
    /// Relay between the client and the exec process until either side is
    /// done.
    Relay,
    /// Ask the runtime for the exit code of the exec process with this id.
    InspectExec(String),
    /// The run is over, with this result.
    Done(Result<CommandExecution, EngineError>),
    /// The run is over; nothing is handed back.
    Closed,
}

/// The mathematical model of an [`ExecAction`].
pub enum ActionView {
    Sleep(u64),
    InspectContainer(Seq<char>),
    CreateExec(RequestView),
    StartExec(Seq<char>),
    ReadOutput(Option<u64>),
    Relay,
    InspectExec(Seq<char>),
    Done(Result<ExecutionView, ErrorView>),
    Closed,
}

impl View for ExecAction {
    type V = ActionView;

    open spec fn view(&self) -> ActionView {
        match self {
            ExecAction::Sleep(millis) => ActionView::Sleep(*millis),
            ExecAction::InspectContainer(id) => ActionView::InspectContainer(id@),
            ExecAction::CreateExec(request) => ActionView::CreateExec(request@),
            ExecAction::StartExec(id) => ActionView::StartExec(id@),
            ExecAction::ReadOutput(ceiling) => ActionView::ReadOutput(*ceiling),
            ExecAction::Relay => ActionView::Relay,
            ExecAction::InspectExec(id) => ActionView::InspectExec(id@),
            ExecAction::Done(Ok(execution)) => ActionView::Done(Ok(execution@)),
            ExecAction::Done(Err(error)) => ActionView::Done(Err(error@)),
            ExecAction::Closed => ActionView::Closed,
        }
    }
}

/// One step of a run: the run and the registry after it, and the action
/// that is asked for.
pub struct Step {
    pub run: RunView,
    pub sessions: Map<Seq<char>, SessionView>,
    pub action: ActionView,
}

/// The end of a run.
pub open spec fn finished(
    run: RunView,
    sessions: Map<Seq<char>, SessionView>,
    result: Result<ExecutionView, ErrorView>,
) -> Step {
    Step { run: RunView { phase: RunPhase::Finished, ..run }, sessions, action: ActionView::Done(result) }
}

/// The step that changes nothing and asks for `action`.
pub open spec fn asking(run: RunView, sessions: Map<Seq<char>, SessionView>, action: ActionView) -> Step {
    Step { run, sessions, action }
}

/// The marker that closes the output of a command whose reading ran into
/// the ceiling.
pub open spec fn timeout_marker() -> Seq<char> {
    "\n[Command timed out after 30 seconds]"@
}

/// The output of a command once its reading is over: what was read, closed
/// with the timeout marker where the reading ran into a ceiling.
pub open spec fn closed_output(text: Seq<char>, timed_out: bool, ceiling: Option<u64>) -> Seq<char> {
    if timed_out && ceiling is Some {
        text + timeout_marker()
    } else {
        text
    }
}

/// The exit code of a command: the one that the runtime reports, cut to 32
/// bits, or -1 where it reports none.
pub open spec fn exit_status(code: Option<i64>) -> i32 {
    match code {
        Some(c) => c as i32,
        None => -1i32,
    }
}

/// The ceiling under which the output of a command is read: none for an
/// interactive command.
pub open spec fn output_ceiling(command: Seq<char>) -> Option<u64> {
    if is_interactive(command) {
        None
    } else {
        Some(OUTPUT_CEILING_SECS)
    }
}

/// What the local answer to `clear` holds.
pub open spec fn clear_answer(run: RunView, now: Timestamp) -> ExecutionView {
    ExecutionView {
        session_id: run.session_id,
        command: run.command,
        output: Seq::empty(),
        exit_code: 0,
        duration_ms: 0,
        timestamp: now,
    }
}

/// Whether a session can take a command: it is `Running` and holds the
/// handle of its sandbox.
pub open spec fn is_ready(s: SessionView) -> bool {
    s.status is Running && s.container_id is Some
}

/// The step of a run that polls the registry for its session.
///
/// A session that is absent, failed or stopped ends the run with the error
/// that says so. For a session in any other status `clear` is answered on
/// the spot. A session that is ready has its last activity stamped, and its
/// container is asked after. A session that is not ready yet is slept on,
/// unless the polls allowed are used up.
pub open spec fn poll_step(run: RunView, sessions: Map<Seq<char>, SessionView>, now: Timestamp) -> Step {
    if !sessions.contains_key(run.session_id) {
        finished(run, sessions, Err(ErrorView::SessionNotFound(run.session_id)))
    } else {
        let s = sessions[run.session_id];
        if s.status is Error {
            finished(run, sessions, Err(ErrorView::SessionFailed(None)))
        } else if s.status is Stopped {
            finished(run, sessions, Err(ErrorView::SessionStopped))
        } else if is_clear(run.command) {
            finished(run, sessions, Ok(clear_answer(run, now)))
        } else if is_ready(s) {
            Step {
                run: RunView {
                    phase: RunPhase::CheckingContainer,
                    container_id: s.container_id->0,
                    current_dir: s.current_directory,
                    started_at: now,
                    ..run
                },
                sessions: sessions.insert(run.session_id, SessionView { last_activity: now, ..s }),
                action: ActionView::InspectContainer(s.container_id->0),
            }
        } else if run.attempts >= MAX_READINESS_POLLS {
            finished(run, sessions, Err(ErrorView::ReadinessTimeout))
        } else {
            Step {
                run: RunView { attempts: (run.attempts + 1) as u32, ..run },
                sessions,
                action: ActionView::Sleep(READINESS_POLL_MILLIS),
            }
        }
    }
}

/// The directory of a session after a directory change that succeeded.
pub open spec fn directory_after(run: RunView) -> Seq<char> {
    match change_target(run.command) {
        Some(target) => resolved(run.current_dir, target),
        None => home_directory(),
    }
}

/// The registry once a command has ended with `exit_code`: a directory
/// change that ended with 0 moves the session, if it is still there, and
/// nothing else changes anything.
pub open spec fn registry_after(
    run: RunView,
    sessions: Map<Seq<char>, SessionView>,
    exit_code: i32,
) -> Map<Seq<char>, SessionView> {
    if is_directory_change(run.command) && exit_code == 0 && sessions.contains_key(run.session_id) {
        sessions.insert(
            run.session_id,
            SessionView { current_directory: directory_after(run), ..sessions[run.session_id] },
        )
    } else {
        sessions
    }
}

/// What the run of a command hands back at its end.
pub open spec fn execution_of(run: RunView, exit_code: i32, now: Timestamp) -> ExecutionView {
    ExecutionView {
        session_id: run.session_id,
        command: run.command,
        output: run.output,
        exit_code,
        duration_ms: now.spec_millis_since(run.started_at) as u64,
        timestamp: run.started_at,
    }
}

/// The action that a run is waiting on.
pub open spec fn pending(run: RunView) -> ActionView {
    match run.phase {
        RunPhase::Waiting => ActionView::Sleep(READINESS_POLL_MILLIS),
        RunPhase::CheckingContainer => ActionView::InspectContainer(run.container_id),
        RunPhase::CreatingExec => ActionView::CreateExec(
            exec_request(run.container_id, run.command, run.current_dir),
        ),
        RunPhase::StartingExec => ActionView::StartExec(run.exec_id),
        RunPhase::Reading => ActionView::ReadOutput(output_ceiling(run.command)),
        RunPhase::InspectingExec => ActionView::InspectExec(run.exec_id),
        RunPhase::Finished => ActionView::Closed,
    }
}

/// One step of the run of a command.
///
/// While the session is awaited, every event leads to a poll of the
/// registry. After that each phase takes the event that answers its
/// action; an event that does not is passed over, and the action is asked
/// for again. A failed runtime call ends the run with an error that names
/// the call. A container of which the runtime reports no state counts as
/// one that does not run.
pub open spec fn command_step(
    run: RunView,
    sessions: Map<Seq<char>, SessionView>,
    event: EventView,
    now: Timestamp,
) -> Step {
    match run.phase {
        RunPhase::Waiting => poll_step(run, sessions, now),
        RunPhase::CheckingContainer => match event {
            EventView::ContainerState(Some(true)) => Step {
                run: RunView { phase: RunPhase::CreatingExec, ..run },
                sessions,
                action: ActionView::CreateExec(
                    exec_request(run.container_id, run.command, run.current_dir),
                ),
            },
            EventView::ContainerState(_) => finished(
                run,
                sessions,
                Err(ErrorView::ContainerNotRunning),
            ),
            EventView::CallFailed(reason) => finished(
                run,
                sessions,
                Err(RuntimeCall::InspectContainer.failure(reason)),
            ),
            _ => asking(run, sessions, pending(run)),
        },
        RunPhase::CreatingExec => match event {
            EventView::ExecCreated(id) => Step {
                run: RunView { phase: RunPhase::StartingExec, exec_id: id, ..run },
                sessions,
                action: ActionView::StartExec(id),
            },
            EventView::CallFailed(reason) => finished(
                run,
                sessions,
                Err(RuntimeCall::CreateExec.failure(reason)),
            ),
            _ => asking(run, sessions, pending(run)),
        },
        RunPhase::StartingExec => match event {
            EventView::ExecAttached(true) => Step {
                run: RunView { phase: RunPhase::Reading, ..run },
                sessions,
                action: ActionView::ReadOutput(output_ceiling(run.command)),
            },
            EventView::ExecAttached(false) => finished(
                run,
                sessions,
                Err(ErrorView::RuntimeCallFailed("Unexpected detached exec result"@)),
            ),
            EventView::CallFailed(reason) => finished(
                run,
                sessions,
                Err(RuntimeCall::StartExec.failure(reason)),
            ),
            _ => asking(run, sessions, pending(run)),
        },
        RunPhase::Reading => match event {
            EventView::OutputRead { text, timed_out } => Step {
                run: RunView {
                    phase: RunPhase::InspectingExec,
                    output: closed_output(text, timed_out, output_ceiling(run.command)),
                    ..run
                },
                sessions,
                action: ActionView::InspectExec(run.exec_id),
            },
            _ => asking(run, sessions, pending(run)),
        },
        RunPhase::InspectingExec => match event {
            EventView::ExitCode(code) => finished(
                run,
                registry_after(run, sessions, exit_status(code)),
                Ok(execution_of(run, exit_status(code), now)),
            ),
            EventView::CallFailed(reason) => finished(
                run,
                sessions,
                Err(RuntimeCall::InspectExec.failure(reason)),
            ),
            _ => asking(run, sessions, pending(run)),
        },
        RunPhase::Finished => asking(run, sessions, ActionView::Closed),
    }
}

/// Writes the exec process that runs `command` in a container.
pub fn make_exec_request(container_id: &str, command: &str, working_dir: &str) -> (request:
    ExecRequest)
    ensures
        request@ == exec_request(container_id@, command@, working_dir@),
{
    let mut words: Vec<String> = Vec::new();
    words.push(String::from_str("bash"));
    words.push(String::from_str("-c"));
    words.push(String::from_str(command));
    let request = ExecRequest {
        container_id: String::from_str(container_id),
        command: words,
        working_dir: String::from_str(working_dir),
        user: String::from_str("root"),
        tty: true,
        attach_stdin: true,
        attach_stdout: true,
        attach_stderr: true,
    };
    proof {
        assert(request@.command =~= seq!["bash"@, "-c"@, command@]);
    }
    request
}

/// The action that a run is waiting on.
fn pending_action(run: &CommandRun) -> (action: ExecAction)
    ensures
        action@ == pending(run@),
{
    match run.phase {
        RunPhase::Waiting => ExecAction::Sleep(READINESS_POLL_MILLIS),
        RunPhase::CheckingContainer => ExecAction::InspectContainer(run.container_id.clone()),
        RunPhase::CreatingExec => ExecAction::CreateExec(
            make_exec_request(
                run.container_id.as_str(),
                run.command.as_str(),
                run.current_dir.as_str(),
            ),
        ),
        RunPhase::StartingExec => ExecAction::StartExec(run.exec_id.clone()),
        RunPhase::Reading => ExecAction::ReadOutput(ceiling_for(run.command.as_str())),
        RunPhase::InspectingExec => ExecAction::InspectExec(run.exec_id.clone()),
        RunPhase::Finished => ExecAction::Closed,
    }
}

/// The ceiling under which the output of a command is read.
pub fn ceiling_for(command: &str) -> (ceiling: Option<u64>)
    ensures
        ceiling == output_ceiling(command@),
{
    if DockerVmManager::is_interactive_command(command) {
        None
    } else {
        Some(OUTPUT_CEILING_SECS)
    }
}

/// Closes the output of a command whose reading is over.
pub fn close_output(text: String, timed_out: bool, ceiling: Option<u64>) -> (output: String)
    ensures
        output@ == closed_output(text@, timed_out, ceiling),
{
    let mut output = text;
    if timed_out && ceiling.is_some() {
        output.append("\n[Command timed out after 30 seconds]");
    }
    output
}

/// Ends a run with an error.
pub(crate) fn fail(run: &mut CommandRun, error: EngineError) -> (action: ExecAction)
    ensures
        final(run)@ == (RunView { phase: RunPhase::Finished, ..old(run)@ }),
        action@ == ActionView::Done(Err(error@)),
{
    run.phase = RunPhase::Finished;
    ExecAction::Done(Err(error))
}

impl DockerVmManager {
    /// Polls the registry for the session of a run.
    fn poll_session(state: &mut AppState, run: &mut CommandRun, now: Timestamp) -> (action: ExecAction)
        ensures
            registry_wf(final(state).sessions@),
            poll_step(old(run)@, old(state).sessions@, now) == (Step {
                run: final(run)@,
                sessions: final(state).sessions@,
                action: action@,
            }),
    {
        let found = state.sessions.get(run.session_id.as_str());
        let mut session = match found {
            None => {
                let error = EngineError::SessionNotFound(run.session_id.clone());
                return fail(run, error);
            },
            Some(session) => session,
        };
        match session.status {
            VmStatus::Error(_) => {
                return fail(run, EngineError::SessionFailed(None));
            },
            VmStatus::Stopped => {
                return fail(run, EngineError::SessionStopped);
            },
            _ => {},
        }
        if is_clear_command(run.command.as_str()) {
            let answer = CommandExecution {
                session_id: run.session_id.clone(),
                command: run.command.clone(),
                output: String::new(),
                exit_code: 0,
                duration_ms: 0,
                timestamp: now,
            };
            run.phase = RunPhase::Finished;
            return ExecAction::Done(Ok(answer));
        }
        let running = match session.status {
            VmStatus::Running => true,
            _ => false,
        };
        if running {
            if let Some(container_id) = crate::session::clone_text(&session.container_id) {
                let ghost before = session@;
                run.phase = RunPhase::CheckingContainer;
                run.container_id = container_id.clone();
                run.current_dir = session.current_directory.clone();
                run.started_at = now;
                session.last_activity = now;
                proof {
                    assert(session@ == (SessionView { last_activity: now, ..before }));
                    assert(before.id == old(run)@.session_id);
                }
                state.sessions.put(session);
                return ExecAction::InspectContainer(container_id);
            }
        }
        if run.attempts >= MAX_READINESS_POLLS {
            fail(run, EngineError::ReadinessTimeout)
        } else {
            run.attempts = run.attempts + 1;
            ExecAction::Sleep(READINESS_POLL_MILLIS)
        }
    }

    /// Ends the run of a command whose exit code is known.
    fn conclude(state: &mut AppState, run: &mut CommandRun, code: Option<i64>, now: Timestamp) -> (action:
        ExecAction)
        ensures
            registry_wf(final(state).sessions@),
            finished(
                old(run)@,
                registry_after(old(run)@, old(state).sessions@, exit_status(code)),
                Ok(execution_of(old(run)@, exit_status(code), now)),
            ) == (Step { run: final(run)@, sessions: final(state).sessions@, action: action@ }),
    {
        let exit_code: i32 = match code {
            Some(c) => #[verifier::truncate] (c as i32),
            None => -1,
        };
        let (_, is_cd, target) = Self::process_command(
            run.command.as_str(),
            run.current_dir.as_str(),
        );
        let found = state.sessions.get(run.session_id.as_str());
        if is_cd && exit_code == 0 {
            match found {
                Some(mut session) => {
                    let new_dir = match target {
                        Some(t) => Self::resolve_path(run.current_dir.as_str(), t.as_str()),
                        None => String::from_str("/home/hacker"),
                    };
                    session.current_directory = new_dir;
                    state.sessions.put(session);
                },
                None => {},
            }
        }
        let execution = CommandExecution {
            session_id: run.session_id.clone(),
            command: run.command.clone(),
            output: run.output.clone(),
            exit_code,
            duration_ms: now.millis_since(&run.started_at),
            timestamp: run.started_at,
        };
        run.phase = RunPhase::Finished;
        ExecAction::Done(Ok(execution))
    }

    /// Moves the run of a command by one event, at the time `now`, and says
    /// what the caller is to do next.
    pub fn execute_command_at(state: &mut AppState, run: &mut CommandRun, event: ExecEvent, now: Timestamp) -> (action:
        ExecAction)
        ensures
            registry_wf(final(state).sessions@),
            command_step(old(run)@, old(state).sessions@, event@, now) == (Step {
                run: final(run)@,
                sessions: final(state).sessions@,
                action: action@,
            }),
    {
        state.sessions.attest();
        match run.phase {
            RunPhase::Waiting => Self::poll_session(state, run, now),
            RunPhase::CheckingContainer => match event {
                ExecEvent::ContainerState(Some(true)) => {
                    run.phase = RunPhase::CreatingExec;
                    pending_action(run)
                },
                ExecEvent::ContainerState(_) => fail(run, EngineError::ContainerNotRunning),
                ExecEvent::CallFailed(reason) => {
                    let error = RuntimeCall::InspectContainer.failed(reason.as_str());
                    fail(run, error)
                },
                _ => pending_action(run),
            },
            RunPhase::CreatingExec => match event {
                ExecEvent::ExecCreated(id) => {
                    run.phase = RunPhase::StartingExec;
                    run.exec_id = id;
                    pending_action(run)
                },
                ExecEvent::CallFailed(reason) => {
                    let error = RuntimeCall::CreateExec.failed(reason.as_str());
                    fail(run, error)
                },
                _ => pending_action(run),
            },
            RunPhase::StartingExec => match event {
                ExecEvent::ExecAttached(true) => {
                    run.phase = RunPhase::Reading;
                    pending_action(run)
                },
                ExecEvent::ExecAttached(false) => {
                    let error = EngineError::RuntimeCallFailed(
                        String::from_str("Unexpected detached exec result"),
                    );
                    fail(run, error)
                },
                ExecEvent::CallFailed(reason) => {
                    let error = RuntimeCall::StartExec.failed(reason.as_str());
                    fail(run, error)
                },
                _ => pending_action(run),
            },
            RunPhase::Reading => match event {
                ExecEvent::OutputRead { frames, timed_out } => {
                    run.output = close_output(
                        collect_output(&frames),
                        timed_out,
                        ceiling_for(run.command.as_str()),
                    );
                    run.phase = RunPhase::InspectingExec;
                    pending_action(run)
                },
                _ => pending_action(run),
            },
            RunPhase::InspectingExec => match event {
                ExecEvent::ExitCode(code) => Self::conclude(state, run, code, now),
                ExecEvent::CallFailed(reason) => {
                    let error = RuntimeCall::InspectExec.failed(reason.as_str());
                    fail(run, error)
                },
                _ => pending_action(run),
            },
            RunPhase::Finished => ExecAction::Closed,
        }
    }

    /// Moves the run of a command by one event, at the present time. What
    /// holds of `execute_command_at` holds here for the time that the clock
    /// gave, which is a time no earlier than the Unix epoch.
    pub fn execute_command(state: &mut AppState, run: &mut CommandRun, event: ExecEvent) -> (action:
        ExecAction)
        ensures
            registry_wf(final(state).sessions@),
            exists|now: Timestamp|
                now.is_clock_reading() && #[trigger] command_step(
                    old(run)@,
                    old(state).sessions@,
                    event@,
                    now,
                ) == (Step {
                    run: final(run)@,
                    sessions: final(state).sessions@,
                    action: action@,
                }),
    {
        let now = current_time();
        Self::execute_command_at(state, run, event, now)
    }
}

} // verus!
