use leethack_backend::dispatcher::{
    close_output, concatenate, decode_frames, CommandRun, ExecAction, ExecEvent, LogFrame,
};
use leethack_backend::docker_vm::DockerVmManager;
use leethack_backend::error::EngineError;
use leethack_backend::{AppState, SessionStore, Timestamp, VmSession, VmStatus};

fn session(id: &str, status: VmStatus, sandbox: bool) -> VmSession {
    VmSession {
        id: id.to_string(),
        challenge_id: "sql-injection".to_string(),
        container_id: if sandbox { Some("c".to_string()) } else { None },
        status,
        created_at: Timestamp { secs: 1, nanos: 0 },
        last_activity: Timestamp { secs: 2, nanos: 0 },
        ssh_port: if sandbox { Some(1) } else { None },
        web_port: if sandbox { Some(2) } else { None },
        current_directory: "/home/hacker".to_string(),
    }
}

#[test]
fn a_new_store_holds_nothing() {
    let store = SessionStore::new();
    assert!(store.ids().is_empty());
    assert_eq!(store.get("anything"), None);
}

#[test]
fn the_store_takes_well_formed_sessions_only() {
    let mut store = SessionStore::new();
    assert!(store.insert(session("a", VmStatus::Starting, false)));
    assert!(store.insert(session("b", VmStatus::Running, true)));
    assert!(store.insert(session("c", VmStatus::Stopped, false)));
    assert!(store.insert(session("d", VmStatus::Error("x".to_string()), false)));
    assert!(!store.insert(session("e", VmStatus::Starting, true)));
    assert!(!store.insert(session("f", VmStatus::Running, false)));
    assert!(!store.insert(session("g", VmStatus::Stopped, true)));
    let mut half = session("h", VmStatus::Running, true);
    half.web_port = None;
    assert!(!half.is_well_formed());
    assert!(!store.insert(half));
    let mut ids = store.ids();
    ids.sort();
    assert_eq!(ids, vec!["a", "b", "c", "d"]);
    assert_eq!(store.get("b"), Some(session("b", VmStatus::Running, true)));
    assert_eq!(store.get("e"), None);
}

#[test]
fn the_store_replaces_and_removes_by_id() {
    let mut store = SessionStore::new();
    store.insert(session("a", VmStatus::Starting, false));
    store.insert(session("a", VmStatus::Running, true));
    assert_eq!(store.ids(), vec!["a"]);
    assert_eq!(store.get("a").unwrap().status, VmStatus::Running);
    assert_eq!(store.remove("b"), None);
    assert_eq!(store.remove("a"), Some(session("a", VmStatus::Running, true)));
    assert_eq!(store.remove("a"), None);
    assert!(store.ids().is_empty());
}

#[test]
fn a_stopped_session_takes_no_command() {
    let mut state = AppState::new();
    assert!(state.sessions.insert(session("s", VmStatus::Stopped, false)));
    for command in ["ls", "clear"] {
        let mut run = CommandRun::new("s", command);
        assert_eq!(
            DockerVmManager::execute_command_at(
                &mut state,
                &mut run,
                ExecEvent::Started,
                Timestamp { secs: 9, nanos: 0 }
            ),
            ExecAction::Done(Err(EngineError::SessionStopped))
        );
    }
    let mut run = CommandRun::new("s", "vim");
    assert_eq!(
        DockerVmManager::execute_interactive_command_at(
            &state,
            &mut run,
            ExecEvent::Started,
            Timestamp { secs: 9, nanos: 0 }
        ),
        ExecAction::Done(Err(EngineError::SessionStopped))
    );
    assert_eq!(state.sessions.get("s"), Some(session("s", VmStatus::Stopped, false)));
    // The end of a provisioning does not wake it either.
    assert!(!DockerVmManager::complete_provisioning(
        &mut state,
        "s",
        leethack_backend::docker_vm::Provisioning::Failed(EngineError::ReadinessTimeout),
    ));
}

#[test]
fn output_is_closed_with_the_marker_only_under_a_ceiling() {
    let marker = "\n[Command timed out after 30 seconds]";
    assert_eq!(close_output("abc".to_string(), true, Some(30)), format!("abc{}", marker));
    assert_eq!(close_output(String::new(), true, Some(1)), marker);
    assert_eq!(close_output("abc".to_string(), false, Some(30)), "abc");
    assert_eq!(close_output("abc".to_string(), true, None), "abc");
    assert_eq!(close_output("abc".to_string(), false, None), "abc");
}

#[test]
fn pieces_are_put_one_after_another() {
    assert_eq!(concatenate(&vec![]), "");
    assert_eq!(
        concatenate(&vec!["a".to_string(), String::new(), "bc".to_string(), "\n".to_string()]),
        "abc\n"
    );
    assert_eq!(
        decode_frames(&vec![
            LogFrame::StdOut(b"x".to_vec()),
            LogFrame::StdErr(vec![0xc3]),
            LogFrame::Console(vec![]),
        ]),
        vec!["x", "\u{FFFD}", ""]
    );
}
