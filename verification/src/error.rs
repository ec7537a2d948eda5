//! The ways in which the engine fails.

use vstd::prelude::*;
use vstd::string::StringExecFns;

verus! {

/// A failure of the session engine.
#[derive(Clone, Debug, PartialEq, Eq)]
pub enum EngineError {
    /// No challenge has this id. Nothing was done.
    UnknownChallenge(String),
    /// The registry holds no session with this id.
    SessionNotFound(String),
    /// The session's provisioning failed. The reason is given where the
    /// caller asked for it.
    SessionFailed(Option<String>),
    /// The session's sandbox was stopped.
    SessionStopped,
    /// The session did not become ready within the polls allowed.
    ReadinessTimeout,
    /// The session is `Running` but its container is not.
    ContainerNotRunning,
    /// The sandbox image, by name, is not present. It is never pulled.
    ImageNotFound(String),
    /// A call of the container runtime failed; the text says which and why.
    RuntimeCallFailed(String),
}

/// The mathematical model of an [`EngineError`].
pub enum ErrorView {
    UnknownChallenge(Seq<char>),
    SessionNotFound(Seq<char>),
    SessionFailed(Option<Seq<char>>),
    SessionStopped,
    ReadinessTimeout,
    ContainerNotRunning,
    ImageNotFound(Seq<char>),
    RuntimeCallFailed(Seq<char>),
}

impl View for EngineError {
    type V = ErrorView;

    open spec fn view(&self) -> ErrorView {
        match self {
            EngineError::UnknownChallenge(id) => ErrorView::UnknownChallenge(id@),
            EngineError::SessionNotFound(id) => ErrorView::SessionNotFound(id@),
            EngineError::SessionFailed(reason) => ErrorView::SessionFailed(
                match reason {
                    Some(r) => Some(r@),
                    None => None,
                },
            ),
            EngineError::SessionStopped => ErrorView::SessionStopped,
            EngineError::ReadinessTimeout => ErrorView::ReadinessTimeout,
            EngineError::ContainerNotRunning => ErrorView::ContainerNotRunning,
            EngineError::ImageNotFound(image) => ErrorView::ImageNotFound(image@),
            EngineError::RuntimeCallFailed(text) => ErrorView::RuntimeCallFailed(text@),
        }
    }
}

impl ErrorView {
    /// The text that describes the failure to a person.
    pub open spec fn message(self) -> Seq<char> {
        match self {
            ErrorView::UnknownChallenge(id) => "Unknown challenge: "@ + id,
            ErrorView::SessionNotFound(id) => "Session not found: "@ + id,
            ErrorView::SessionFailed(Some(reason)) => "Session error: "@ + reason,
            ErrorView::SessionFailed(None) => "Session failed"@,
            ErrorView::SessionStopped => "Session is stopped"@,
            ErrorView::ReadinessTimeout => "Timeout waiting for session to be ready"@,
            ErrorView::ContainerNotRunning => "Container is not running"@,
            ErrorView::ImageNotFound(image) => "Docker image '"@ + image
                + "' not found. Please build it first with: docker build -t "@ + image
                + " -f Dockerfile.firecracker ."@,
            ErrorView::RuntimeCallFailed(text) => text,
        }
    }
}

/// `prefix` followed by `rest`.
pub fn concat(prefix: &str, rest: &str) -> (text: String)
    ensures
        text@ == prefix@ + rest@,
{
    let mut text = String::from_str(prefix);
    text.append(rest);
    text
}

impl EngineError {
    /// Writes the text that describes the failure to a person.
    pub fn message(&self) -> (text: String)
        ensures
            text@ == self@.message(),
    {
        match self {
            EngineError::UnknownChallenge(id) => concat("Unknown challenge: ", id.as_str()),
            EngineError::SessionNotFound(id) => concat("Session not found: ", id.as_str()),
            EngineError::SessionFailed(Some(reason)) => concat("Session error: ", reason.as_str()),
            EngineError::SessionFailed(None) => String::from_str("Session failed"),
            EngineError::SessionStopped => String::from_str("Session is stopped"),
            EngineError::ReadinessTimeout => String::from_str(
                "Timeout waiting for session to be ready",
            ),
            EngineError::ContainerNotRunning => String::from_str("Container is not running"),
            EngineError::ImageNotFound(image) => {
                let mut text = concat("Docker image '", image.as_str());
                text.append("' not found. Please build it first with: docker build -t ");
                text.append(image.as_str());
                text.append(" -f Dockerfile.firecracker .");
                text
            },
            EngineError::RuntimeCallFailed(text) => text.clone(),
        }
    }
}

} // verus!
