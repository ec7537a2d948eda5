//! The interactive variant of a run, and the relay between a client and the
//! exec process that it ends in.

use crate::dispatcher::{
    exec_request, fail, finished, is_ready, lossy_text, make_exec_request, ActionView, CommandRun,
    EventView, ExecAction, ExecEvent, LogFrame, RunPhase, RunView, Step, MAX_READINESS_POLLS,
    READINESS_POLL_MILLIS,
};
use crate::docker_vm::{current_time, DockerVmManager, RuntimeCall};
use crate::error::{EngineError, ErrorView};
use crate::session::{SessionView, Timestamp, VmStatus};
use crate::store::AppState;
use vstd::prelude::*;
use vstd::string::{StrSliceExecFns, StringExecFns};

verus! {

/// The step of an interactive run that polls the registry for its session.
///
/// A session that is absent, failed or stopped ends the run with the error
/// that says so; for a failed one the error carries the reason. A session
/// that is ready has an exec process asked for. A session that is not ready
/// yet is slept on, unless the polls allowed are used up.
pub open spec fn interactive_poll_step(
    run: RunView,
    sessions: Map<Seq<char>, SessionView>,
    now: Timestamp,
) -> Step {
    if !sessions.contains_key(run.session_id) {
        finished(run, sessions, Err(ErrorView::SessionNotFound(run.session_id)))
    } else {
        let s = sessions[run.session_id];
        if s.status is Error {
            finished(run, sessions, Err(ErrorView::SessionFailed(Some(s.status->Error_0))))
        } else if s.status is Stopped {
            finished(run, sessions, Err(ErrorView::SessionStopped))
        } else if is_ready(s) {
            Step {
                run: RunView {
                    phase: RunPhase::CreatingExec,
                    container_id: s.container_id->0,
                    current_dir: s.current_directory,
                    started_at: now,
                    ..run
                },
                sessions,
                action: ActionView::CreateExec(
                    exec_request(s.container_id->0, run.command, s.current_directory),
                ),
            }
        } else if run.attempts >= MAX_READINESS_POLLS {
            finished(run, sessions, Err(ErrorView::ReadinessTimeout))
        } else {
            Step {
                run: RunView { attempts: (run.attempts + 1) as u32, ..run },
                sessions,
                action: ActionView::Sleep(READINESS_POLL_MILLIS),
            }
        }
    }
}

/// The action that an interactive run is waiting on.
pub open spec fn interactive_pending(run: RunView) -> ActionView {
    match run.phase {
        RunPhase::Waiting => ActionView::Sleep(READINESS_POLL_MILLIS),
        RunPhase::CreatingExec => ActionView::CreateExec(
            exec_request(run.container_id, run.command, run.current_dir),
        ),
        RunPhase::StartingExec => ActionView::StartExec(run.exec_id),
        RunPhase::Reading => ActionView::Relay,
        _ => ActionView::Closed,
    }
}

/// One step of an interactive run. It never changes the registry.
///
/// While the session is awaited, every event leads to a poll of the
/// registry. Once the exec process is attached the relay is asked for, and
/// the end of the relay closes the run. An event that does not answer the
/// action that the run waits on is passed over, and the action is asked
/// for again.
pub open spec fn interactive_step(
    run: RunView,
    sessions: Map<Seq<char>, SessionView>,
    event: EventView,
    now: Timestamp,
) -> Step {
    match run.phase {
        RunPhase::Waiting => interactive_poll_step(run, sessions, now),
        RunPhase::CreatingExec => match event {
            EventView::ExecCreated(id) => Step {
                run: RunView { phase: RunPhase::StartingExec, exec_id: id, ..run },
                sessions,
                action: ActionView::StartExec(id),
            },
            EventView::CallFailed(reason) => finished(
                run,
                sessions,
                Err(RuntimeCall::CreateExec.failure(reason)),
            ),
            _ => Step { run, sessions, action: interactive_pending(run) },
        },
        RunPhase::StartingExec => match event {
            EventView::ExecAttached(true) => Step {
                run: RunView { phase: RunPhase::Reading, ..run },
                sessions,
                action: ActionView::Relay,
            },
            EventView::ExecAttached(false) => finished(
                run,
                sessions,
                Err(ErrorView::RuntimeCallFailed("Unexpected detached exec result"@)),
            ),
            EventView::CallFailed(reason) => finished(
                run,
                sessions,
                Err(RuntimeCall::StartExec.failure(reason)),
            ),
            _ => Step { run, sessions, action: interactive_pending(run) },
        },
        RunPhase::Reading => match event {
            EventView::RelayEnded => Step {
                run: RunView { phase: RunPhase::Finished, ..run },
                sessions,
                action: ActionView::Closed,
            },
            _ => Step { run, sessions, action: interactive_pending(run) },
        },
        _ => Step { run, sessions, action: ActionView::Closed },
    }
}

/// What happened in the relay.
#[derive(Debug, PartialEq, Eq)]
pub enum RelayEvent {
    /// The exec process put out a frame.
    OutputFrame(LogFrame),
    /// Reading the output failed.
    OutputFailed,
    /// The output is at its end.
    OutputEnded,
    /// A text was handed to the client, or the client is gone.
    Delivered(bool),
    /// The client sent a text.
    Input(String),
    /// The client sends no more.
    InputClosed,
    /// The bytes were written to the exec process, or could not be.
    Written(bool),
    /// The input of the exec process was flushed, or could not be.
    Flushed(bool),
}

/// What the relay does next.
#[derive(Debug, PartialEq, Eq)]
pub enum RelayAction {
    /// Hand this text to the client, then report `Delivered`.
    Deliver(String),
    /// Read the next frame of output.
    ReadOutput,
    /// Write these bytes to the exec process, then report `Written`.
    Write(Vec<u8>),
    /// Flush the input of the exec process, then report `Flushed`.
    Flush,
    /// Take the next text from the client.
    ReadInput,
    /// This direction of the relay is over, and with it the relay.
    Stop,
}

/// The mathematical model of a [`RelayAction`].
pub enum RelayActionView {
    Deliver(Seq<char>),
    ReadOutput,
    Write(Seq<u8>),
    Flush,
    ReadInput,
    Stop,
}

impl View for RelayAction {
    type V = RelayActionView;

    open spec fn view(&self) -> RelayActionView {
        match self {
            RelayAction::Deliver(text) => RelayActionView::Deliver(text@),
            RelayAction::ReadOutput => RelayActionView::ReadOutput,
            RelayAction::Write(bytes) => RelayActionView::Write(bytes@),
            RelayAction::Flush => RelayActionView::Flush,
            RelayAction::ReadInput => RelayActionView::ReadInput,
            RelayAction::Stop => RelayActionView::Stop,
        }
    }
}

/// What the relay does on an event.
///
/// Outward, each frame is decoded and handed to the client, and the next
/// frame is read once the client took it. Inward, each text of the client
/// is written as its bytes, then flushed, and then the next text is taken.
/// The end of a stream, a failure, and a client that is gone stop the
/// relay.
pub open spec fn relay_next(event: RelayEvent) -> RelayActionView {
    match event {
        RelayEvent::OutputFrame(frame) => RelayActionView::Deliver(lossy_text(frame.payload())),
        RelayEvent::Delivered(true) => RelayActionView::ReadOutput,
        RelayEvent::Input(text) => RelayActionView::Write(vstd::utf8::encode_utf8(text@)),
        RelayEvent::Written(true) => RelayActionView::Flush,
        RelayEvent::Flushed(true) => RelayActionView::ReadInput,
        _ => RelayActionView::Stop,
    }
}

impl DockerVmManager {
    /// Polls the registry for the session of an interactive run.
    fn poll_interactive(state: &AppState, run: &mut CommandRun, now: Timestamp) -> (action: ExecAction)
        ensures
            interactive_poll_step(old(run)@, state.sessions@, now) == (Step {
                run: final(run)@,
                sessions: state.sessions@,
                action: action@,
            }),
    {
        let session = match state.sessions.get(run.session_id.as_str()) {
            None => {
                let error = EngineError::SessionNotFound(run.session_id.clone());
                return fail(run, error);
            },
            Some(session) => session,
        };
        let running = match &session.status {
            VmStatus::Error(reason) => {
                let error = EngineError::SessionFailed(Some(reason.clone()));
                return fail(run, error);
            },
            VmStatus::Stopped => {
                return fail(run, EngineError::SessionStopped);
            },
            VmStatus::Running => true,
            VmStatus::Starting => false,
        };
        if running {
            if let Some(container_id) = session.container_id {
                let request = make_exec_request(
                    container_id.as_str(),
                    run.command.as_str(),
                    session.current_directory.as_str(),
                );
                run.phase = RunPhase::CreatingExec;
                run.container_id = container_id;
                run.current_dir = session.current_directory;
                run.started_at = now;
                return ExecAction::CreateExec(request);
            }
        }
        if run.attempts >= MAX_READINESS_POLLS {
            fail(run, EngineError::ReadinessTimeout)
        } else {
            run.attempts = run.attempts + 1;
            ExecAction::Sleep(READINESS_POLL_MILLIS)
        }
    }

    /// The action that an interactive run is waiting on.
    fn interactive_pending_action(run: &CommandRun) -> (action: ExecAction)
        ensures
            action@ == interactive_pending(run@),
    {
        match run.phase {
            RunPhase::Waiting => ExecAction::Sleep(READINESS_POLL_MILLIS),
            RunPhase::CreatingExec => ExecAction::CreateExec(
                make_exec_request(
                    run.container_id.as_str(),
                    run.command.as_str(),
                    run.current_dir.as_str(),
                ),
            ),
            RunPhase::StartingExec => ExecAction::StartExec(run.exec_id.clone()),
            RunPhase::Reading => ExecAction::Relay,
            _ => ExecAction::Closed,
        }
    }

    /// Moves an interactive run by one event, at the time `now`, and says
    /// what the caller is to do next.
    pub fn execute_interactive_command_at(state: &AppState, run: &mut CommandRun, event: ExecEvent, now: Timestamp) -> (action:
        ExecAction)
        ensures
            interactive_step(old(run)@, state.sessions@, event@, now) == (Step {
                run: final(run)@,
                sessions: state.sessions@,
                action: action@,
            }),
    {
        match run.phase {
            RunPhase::Waiting => Self::poll_interactive(state, run, now),
            RunPhase::CreatingExec => match event {
                ExecEvent::ExecCreated(id) => {
                    run.phase = RunPhase::StartingExec;
                    run.exec_id = id;
                    Self::interactive_pending_action(run)
                },
                ExecEvent::CallFailed(reason) => {
                    let error = RuntimeCall::CreateExec.failed(reason.as_str());
                    fail(run, error)
                },
                _ => Self::interactive_pending_action(run),
            },
            RunPhase::StartingExec => match event {
                ExecEvent::ExecAttached(true) => {
                    run.phase = RunPhase::Reading;
                    ExecAction::Relay
                },
                ExecEvent::ExecAttached(false) => {
                    let error = EngineError::RuntimeCallFailed(
                        String::from_str("Unexpected detached exec result"),
                    );
                    fail(run, error)
                },
                ExecEvent::CallFailed(reason) => {
                    let error = RuntimeCall::StartExec.failed(reason.as_str());
                    fail(run, error)
                },
                _ => Self::interactive_pending_action(run),
            },
            RunPhase::Reading => match event {
                ExecEvent::RelayEnded => {
                    run.phase = RunPhase::Finished;
                    ExecAction::Closed
                },
                _ => Self::interactive_pending_action(run),
            },
            _ => ExecAction::Closed,
        }
    }

    /// Moves an interactive run by one event, at the present time. What
    /// holds of `execute_interactive_command_at` holds here for the time
    /// that the clock gave, which is a time no earlier than the Unix epoch.
    pub fn execute_interactive_command(state: &AppState, run: &mut CommandRun, event: ExecEvent) -> (action:
        ExecAction)
        ensures
            exists|now: Timestamp|
                now.is_clock_reading() && #[trigger] interactive_step(
                    old(run)@,
                    state.sessions@,
                    event@,
                    now,
                ) == (Step {
                    run: final(run)@,
                    sessions: state.sessions@,
                    action: action@,
                }),
    {
        let now = current_time();
        Self::execute_interactive_command_at(state, run, event, now)
    }

    /// Decides what the relay does on an event.
    pub fn relay_step(event: RelayEvent) -> (action: RelayAction)
        ensures
            action@ == relay_next(event),
    {
        match event {
            RelayEvent::OutputFrame(frame) => RelayAction::Deliver(frame.text()),
            RelayEvent::Delivered(true) => RelayAction::ReadOutput,
            RelayEvent::Input(text) => RelayAction::Write(text.as_str().as_bytes_vec()),
            RelayEvent::Written(true) => RelayAction::Flush,
            RelayEvent::Flushed(true) => RelayAction::ReadInput,
            _ => RelayAction::Stop,
        }
    }
}

} // verus!
