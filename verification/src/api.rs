//! What the service answers: the bodies of its requests and responses, and
//! the decisions of its handlers.

use crate::challenge::{catalog_entry, names_are_distinct};
use crate::command::is_interactive;
use crate::docker_vm::{is_session_id, DockerVmManager};
use crate::error::{concat, EngineError, ErrorView};
use crate::session::{
    CommandExecution, ExecutionView, SessionView, StatusView, Timestamp, VmSession, VmStatus,
};
use crate::store::{registry_wf, AppState};
use crate::text::{chars_of, same_text};
use vstd::prelude::*;
use vstd::string::StringExecFns;

verus! {

/// The body of a request for a session.
#[derive(Debug, PartialEq, Eq)]
pub struct CreateSessionRequest {
    pub challenge: String,
}

/// The body of the answer to a request for a session.
#[derive(Debug, PartialEq, Eq)]
pub struct CreateSessionResponse {
    pub session_id: String,
    pub status: VmStatus,
    pub challenge: String,
    /// What the terminal is told of its environment, as pairs of name and
    /// value. No name stands twice.
    pub environment: Vec<(String, String)>,
}

/// The body of a request to run a command.
#[derive(Debug, PartialEq, Eq)]
pub struct ExecuteCommandRequest {
    pub session_id: String,
    pub command: String,
}

/// The body of the answer to a request to run a command.
#[derive(Debug, PartialEq, Eq)]
pub struct ExecuteCommandResponse {
    pub session_id: String,
    pub command: String,
    pub output: String,
    pub exit_code: i32,
    pub timestamp: Timestamp,
}

/// The mathematical model of a [`CreateSessionResponse`].
pub struct CreatedView {
    pub session_id: Seq<char>,
    pub status: StatusView,
    pub challenge: Seq<char>,
    pub environment: Seq<(Seq<char>, Seq<char>)>,
}

impl View for CreateSessionResponse {
    type V = CreatedView;

    open spec fn view(&self) -> CreatedView {
        CreatedView {
            session_id: self.session_id@,
            status: self.status@,
            challenge: self.challenge@,
            environment: crate::challenge::pairs_view(self.environment@),
        }
    }
}

/// The mathematical model of an [`ExecuteCommandResponse`].
pub struct ExecutedView {
    pub session_id: Seq<char>,
    pub command: Seq<char>,
    pub output: Seq<char>,
    pub exit_code: i32,
    pub timestamp: Timestamp,
}

impl View for ExecuteCommandResponse {
    type V = ExecutedView;

    open spec fn view(&self) -> ExecutedView {
        ExecutedView {
            session_id: self.session_id@,
            command: self.command@,
            output: self.output@,
            exit_code: self.exit_code,
            timestamp: self.timestamp,
        }
    }
}

/// What every terminal is told of its environment.
pub open spec fn terminal_environment() -> Seq<(Seq<char>, Seq<char>)> {
    seq![("USER"@, "hacker"@), ("SHELL"@, "/bin/bash"@), ("PWD"@, "/home/hacker"@)]
}

/// The answer that presents a session to the client that asked for it.
pub open spec fn created_response(session: SessionView) -> CreatedView {
    CreatedView {
        session_id: session.id,
        status: session.status,
        challenge: session.challenge_id,
        environment: terminal_environment(),
    }
}

/// The answer to a request to run a command. A command that ran is
/// answered with its output and exit code. A failure is answered in band,
/// with the exit code 1 and the failure as the output, stamped with `now`.
pub open spec fn executed_response(
    session_id: Seq<char>,
    command: Seq<char>,
    outcome: Result<ExecutionView, ErrorView>,
    now: Timestamp,
) -> ExecutedView {
    match outcome {
        Ok(execution) => ExecutedView {
            session_id: execution.session_id,
            command: execution.command,
            output: execution.output,
            exit_code: execution.exit_code,
            timestamp: execution.timestamp,
        },
        Err(error) => ExecutedView {
            session_id,
            command,
            output: "Error: "@ + error.message(),
            exit_code: 1,
            timestamp: now,
        },
    }
}

/// The view of the outcome of a run.
pub open spec fn outcome_view(outcome: Result<CommandExecution, EngineError>) -> Result<
    ExecutionView,
    ErrorView,
> {
    match outcome {
        Ok(execution) => Ok(execution@),
        Err(error) => Err(error@),
    }
}

/// Presents a session to the client that asked for it.
pub fn create_session_response(session: VmSession) -> (response: CreateSessionResponse)
    ensures
        response@ == created_response(session@),
        names_are_distinct(response@.environment),
{
    let mut environment: Vec<(String, String)> = Vec::new();
    environment.push((String::from_str("USER"), String::from_str("hacker")));
    environment.push((String::from_str("SHELL"), String::from_str("/bin/bash")));
    environment.push((String::from_str("PWD"), String::from_str("/home/hacker")));
    let response = CreateSessionResponse {
        session_id: session.id,
        status: session.status,
        challenge: session.challenge_id,
        environment,
    };
    proof {
        assert(response@.environment =~= terminal_environment());
        reveal_strlit("USER");
        reveal_strlit("SHELL");
        reveal_strlit("PWD");
        assert("USER"@.len() == 4 && "SHELL"@.len() == 5 && "PWD"@.len() == 3);
    }
    response
}

/// Creates a session for the challenge that the request names and presents
/// it. The session is `Starting`: the answer does not wait for the sandbox.
pub fn create_session(state: &mut AppState, request: &CreateSessionRequest) -> (answer: Result<
    CreateSessionResponse,
    EngineError,
>)
    ensures
        registry_wf(final(state).sessions@),
        match answer {
            Ok(response) => {
                &&& catalog_entry(request.challenge@) is Some
                &&& is_session_id(response@.session_id)
                &&& response@.status is Starting
                &&& response@.challenge == request.challenge@
                &&& response@.environment == terminal_environment()
                &&& names_are_distinct(response@.environment)
                &&& final(state).sessions@.contains_key(response@.session_id)
                &&& created_response(final(state).sessions@[response@.session_id]) == response@
                &&& final(state).sessions@.remove(response@.session_id) == old(
                    state,
                ).sessions@.remove(response@.session_id)
            },
            Err(error) => {
                &&& catalog_entry(request.challenge@) is None
                &&& error@ == ErrorView::UnknownChallenge(request.challenge@)
                &&& final(state).sessions@ == old(state).sessions@
            },
        },
{
    match DockerVmManager::create_vm_session(state, request.challenge.as_str()) {
        Ok(session) => {
            proof {
                let id = session@.id;
                assert(old(state).sessions@.insert(id, session@).remove(id) =~= old(
                    state,
                ).sessions@.remove(id));
            }
            Ok(create_session_response(session))
        },
        Err(error) => Err(error),
    }
}

/// Answers a request to run a command with the outcome of its run.
pub fn execute_command(
    request: ExecuteCommandRequest,
    outcome: Result<CommandExecution, EngineError>,
    now: Timestamp,
) -> (response: ExecuteCommandResponse)
    ensures
        response@ == executed_response(
            request.session_id@,
            request.command@,
            outcome_view(outcome),
            now,
        ),
{
    match outcome {
        Ok(execution) => ExecuteCommandResponse {
            session_id: execution.session_id,
            command: execution.command,
            output: execution.output,
            exit_code: execution.exit_code,
            timestamp: execution.timestamp,
        },
        Err(error) => ExecuteCommandResponse {
            session_id: request.session_id,
            command: request.command,
            output: concat("Error: ", error.message().as_str()),
            exit_code: 1,
            timestamp: now,
        },
    }
}

/// Tells whether a command needs a persistent terminal.
pub fn is_interactive_command(command: &str) -> (interactive: bool)
    ensures
        interactive == is_interactive(command@),
{
    DockerVmManager::is_interactive_command(command)
}

/// What is done with a message that came over the socket of a session.
#[derive(Debug, PartialEq, Eq)]
pub enum SocketDecision {
    /// Run this command and send its result.
    Run(String),
    /// Send this refusal.
    Refuse(String),
    /// Let the message pass.
    Ignore,
}

/// The mathematical model of a [`SocketDecision`].
pub enum SocketDecisionView {
    Run(Seq<char>),
    Refuse(Seq<char>),
    Ignore,
}

impl View for SocketDecision {
    type V = SocketDecisionView;

    open spec fn view(&self) -> SocketDecisionView {
        match self {
            SocketDecision::Run(command) => SocketDecisionView::Run(command@),
            SocketDecision::Refuse(text) => SocketDecisionView::Refuse(text@),
            SocketDecision::Ignore => SocketDecisionView::Ignore,
        }
    }
}

/// The words with which an interactive command is refused over a socket.
pub open spec fn interactive_refusal() -> Seq<char> {
    "Interactive commands like vim/nano are not yet fully supported via WebSocket. Please use regular terminal for now."@
}

/// What is done with a message of the kind `kind` that carries `command`.
/// Only a message of the kind `command` that carries a command leads to
/// anything: the command is run, unless it is interactive, which is
/// refused.
pub open spec fn socket_decision(kind: Seq<char>, command: Option<Seq<char>>) -> SocketDecisionView {
    if kind == "command"@ && command is Some {
        if is_interactive(command->0) {
            SocketDecisionView::Refuse(interactive_refusal())
        } else {
            SocketDecisionView::Run(command->0)
        }
    } else {
        SocketDecisionView::Ignore
    }
}

/// The characters of an optional text slice.
pub open spec fn slice_text(text: Option<&str>) -> Option<Seq<char>> {
    match text {
        Some(t) => Some(t@),
        None => None,
    }
}

/// Decides what is done with a message that came over the socket of a
/// session.
pub fn handle_websocket(kind: &str, command: Option<&str>) -> (decision: SocketDecision)
    ensures
        decision@ == socket_decision(kind@, slice_text(command)),
{
    if !same_text(&chars_of(kind), &chars_of("command")) {
        return SocketDecision::Ignore;
    }
    match command {
        Some(c) => {
            if is_interactive_command(c) {
                SocketDecision::Refuse(
                    String::from_str(
                        "Interactive commands like vim/nano are not yet fully supported via WebSocket. Please use regular terminal for now.",
                    ),
                )
            } else {
                SocketDecision::Run(String::from_str(c))
            }
        },
        None => SocketDecision::Ignore,
    }
}

/// The words with which the failure of a command is reported over a socket.
pub fn socket_failure(error: &EngineError) -> (text: String)
    ensures
        text@ == "Command execution failed: "@ + error@.message(),
{
    concat("Command execution failed: ", error.message().as_str())
}

} // verus!
