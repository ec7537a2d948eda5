pub mod api;
pub mod challenge;
pub mod command;
pub mod config;
pub mod dispatcher;
pub mod docker_vm;
pub mod error;
pub mod laws;
pub mod paths;
pub mod provision;
pub mod relay;
pub mod session;
pub mod store;
pub mod text;

pub use api::{
    CreateSessionRequest, CreateSessionResponse, ExecuteCommandRequest, ExecuteCommandResponse,
};
pub use challenge::ChallengeConfig;
pub use session::{CommandExecution, Timestamp, VmSession, VmStatus};
pub use store::{AppState, SessionStore};
