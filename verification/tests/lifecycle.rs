use leethack_backend::docker_vm::{
    DockerVmManager, Provisioning, RuntimeCall, TeardownAction, TeardownEvent,
};
use leethack_backend::error::EngineError;
use leethack_backend::{AppState, Timestamp, VmSession, VmStatus};

fn at(secs: i64) -> Timestamp {
    Timestamp { secs, nanos: 0 }
}

fn ready(container: &str) -> Provisioning {
    Provisioning::Ready { container_id: container.to_string(), ssh_port: 40001, web_port: 40002 }
}

fn sorted_ids(sessions: &[VmSession]) -> Vec<String> {
    let mut ids: Vec<String> = sessions.iter().map(|s| s.id.clone()).collect();
    ids.sort();
    ids
}

#[test]
fn create_returns_a_starting_session_at_once() {
    let mut state = AppState::new();
    let session =
        DockerVmManager::create_vm_session_at(&mut state, "sql-injection", "s1".to_string(), at(100))
            .unwrap();
    assert_eq!(
        session,
        VmSession {
            id: "s1".to_string(),
            challenge_id: "sql-injection".to_string(),
            container_id: None,
            status: VmStatus::Starting,
            created_at: at(100),
            last_activity: at(100),
            ssh_port: None,
            web_port: None,
            current_directory: "/home/hacker".to_string(),
        }
    );
    assert_eq!(DockerVmManager::get_session(&state, "s1"), Ok(session));
}

#[test]
fn create_refuses_an_unknown_challenge_before_any_effect() {
    let mut state = AppState::new();
    assert_eq!(
        DockerVmManager::create_vm_session_at(&mut state, "nope", "s1".to_string(), at(1)),
        Err(EngineError::UnknownChallenge("nope".to_string()))
    );
    assert!(DockerVmManager::list_sessions(&state).is_empty());
    assert_eq!(
        DockerVmManager::create_vm_session(&mut state, ""),
        Err(EngineError::UnknownChallenge("".to_string()))
    );
    assert!(state.sessions.ids().is_empty());
}

#[test]
fn create_draws_a_fresh_id_and_the_present_time() {
    let mut state = AppState::new();
    let first = DockerVmManager::create_vm_session(&mut state, "sql-injection").unwrap();
    let second = DockerVmManager::create_vm_session(&mut state, "sql-injection").unwrap();
    assert_ne!(first.id, second.id);
    for session in [&first, &second] {
        assert_eq!(session.id.len(), 36);
        for (i, c) in session.id.chars().enumerate() {
            if i == 8 || i == 13 || i == 18 || i == 23 {
                assert_eq!(c, '-');
            } else {
                assert!(c.is_ascii_digit() || ('a'..='f').contains(&c), "{}", session.id);
            }
        }
        assert_eq!(session.status, VmStatus::Starting);
        assert_eq!(session.created_at, session.last_activity);
        assert!(session.created_at.secs > 1_600_000_000);
        assert!(session.created_at.nanos < 1_000_000_000);
        assert_eq!(session.current_directory, "/home/hacker");
        assert_eq!(DockerVmManager::get_session(&state, &session.id).as_ref(), Ok(session));
    }
    assert_eq!(DockerVmManager::list_sessions(&state).len(), 2);
}

#[test]
fn provisioning_success_makes_the_session_running() {
    let mut state = AppState::new();
    DockerVmManager::create_vm_session_at(&mut state, "sql-injection", "s1".to_string(), at(5))
        .unwrap();
    assert!(DockerVmManager::complete_provisioning(&mut state, "s1", ready("c1")));
    let session = DockerVmManager::get_session(&state, "s1").unwrap();
    assert_eq!(session.status, VmStatus::Running);
    assert_eq!(session.container_id, Some("c1".to_string()));
    assert_eq!(session.ssh_port, Some(40001));
    assert_eq!(session.web_port, Some(40002));
    assert_eq!(session.created_at, at(5));
    assert_eq!(session.last_activity, at(5));
    assert_eq!(session.current_directory, "/home/hacker");
}

#[test]
fn provisioning_failure_settles_to_error() {
    let mut state = AppState::new();
    DockerVmManager::create_vm_session_at(&mut state, "sql-injection", "s1".to_string(), at(5))
        .unwrap();
    let failure = Provisioning::Failed(EngineError::ImageNotFound("img".to_string()));
    assert!(DockerVmManager::complete_provisioning(&mut state, "s1", failure));
    let session = DockerVmManager::get_session(&state, "s1").unwrap();
    assert_eq!(
        session.status,
        VmStatus::Error(
            "Docker image 'img' not found. Please build it first with: docker build -t img -f Dockerfile.firecracker ."
                .to_string()
        )
    );
    assert_eq!(session.container_id, None);
    assert_eq!(session.ssh_port, None);
    // No later outcome moves a failed session.
    assert!(!DockerVmManager::complete_provisioning(&mut state, "s1", ready("c9")));
    assert_eq!(DockerVmManager::get_session(&state, "s1").unwrap(), session);
}

#[test]
fn provisioning_applies_once_and_only_to_sessions_that_are_there() {
    let mut state = AppState::new();
    assert!(!DockerVmManager::complete_provisioning(&mut state, "ghost", ready("c1")));
    assert!(state.sessions.ids().is_empty());
    DockerVmManager::create_vm_session_at(&mut state, "sql-injection", "s1".to_string(), at(5))
        .unwrap();
    assert!(DockerVmManager::complete_provisioning(&mut state, "s1", ready("c1")));
    assert!(!DockerVmManager::complete_provisioning(&mut state, "s1", ready("c2")));
    let failure = Provisioning::Failed(EngineError::ContainerNotRunning);
    assert!(!DockerVmManager::complete_provisioning(&mut state, "s1", failure));
    let session = DockerVmManager::get_session(&state, "s1").unwrap();
    assert_eq!(session.status, VmStatus::Running);
    assert_eq!(session.container_id, Some("c1".to_string()));
}

#[test]
fn absent_sessions_are_not_found() {
    let mut state = AppState::new();
    assert_eq!(
        DockerVmManager::get_session(&state, "ghost"),
        Err(EngineError::SessionNotFound("ghost".to_string()))
    );
    assert_eq!(
        DockerVmManager::destroy_session(&mut state, "ghost"),
        Err(EngineError::SessionNotFound("ghost".to_string()))
    );
    assert_eq!(state.sessions.get("ghost"), None);
}

#[test]
fn destroy_hands_back_the_container_to_tear_down() {
    let mut state = AppState::new();
    DockerVmManager::create_vm_session_at(&mut state, "sql-injection", "a".to_string(), at(1))
        .unwrap();
    DockerVmManager::create_vm_session_at(&mut state, "sql-injection", "b".to_string(), at(1))
        .unwrap();
    DockerVmManager::complete_provisioning(&mut state, "a", ready("ca"));
    assert_eq!(DockerVmManager::destroy_session(&mut state, "a"), Ok(Some("ca".to_string())));
    assert_eq!(DockerVmManager::destroy_session(&mut state, "b"), Ok(None));
    assert_eq!(
        DockerVmManager::destroy_session(&mut state, "a"),
        Err(EngineError::SessionNotFound("a".to_string()))
    );
    assert!(DockerVmManager::list_sessions(&state).is_empty());
}

#[test]
fn list_holds_every_session_once() {
    let mut state = AppState::new();
    for id in ["x", "y", "z"] {
        DockerVmManager::create_vm_session_at(&mut state, "sql-injection", id.to_string(), at(1))
            .unwrap();
    }
    DockerVmManager::complete_provisioning(&mut state, "y", ready("cy"));
    let listed = DockerVmManager::list_sessions(&state);
    assert_eq!(sorted_ids(&listed), vec!["x", "y", "z"]);
    for session in &listed {
        assert_eq!(DockerVmManager::get_session(&state, &session.id).as_ref(), Ok(session));
    }
    let mut ids = state.sessions.ids();
    ids.sort();
    assert_eq!(ids, vec!["x", "y", "z"]);
}

#[test]
fn a_second_session_under_an_id_takes_the_place_of_the_first() {
    let mut state = AppState::new();
    DockerVmManager::create_vm_session_at(&mut state, "sql-injection", "s".to_string(), at(1))
        .unwrap();
    DockerVmManager::complete_provisioning(&mut state, "s", ready("c"));
    DockerVmManager::create_vm_session_at(&mut state, "sql-injection", "s".to_string(), at(9))
        .unwrap();
    let session = DockerVmManager::get_session(&state, "s").unwrap();
    assert_eq!(session.status, VmStatus::Starting);
    assert_eq!(session.created_at, at(9));
    assert_eq!(DockerVmManager::list_sessions(&state).len(), 1);
}

#[test]
fn tear_down_stops_and_then_removes_by_force() {
    let container = Some("ca".to_string());
    assert_eq!(
        DockerVmManager::tear_down(&container, TeardownEvent::Started),
        TeardownAction::StopContainer("ca".to_string())
    );
    assert_eq!(
        DockerVmManager::tear_down(&container, TeardownEvent::Stopped),
        TeardownAction::RemoveContainer { container_id: "ca".to_string(), force: true }
    );
    assert_eq!(DockerVmManager::tear_down(&container, TeardownEvent::Removed), TeardownAction::Done(Ok(())));
}

#[test]
fn tear_down_passes_over_a_failed_stop() {
    let container = Some("ca".to_string());
    assert_eq!(
        DockerVmManager::tear_down(&container, TeardownEvent::StopFailed("no such container".to_string())),
        TeardownAction::RemoveContainer { container_id: "ca".to_string(), force: true }
    );
}

#[test]
fn tear_down_fails_where_the_removal_fails() {
    let container = Some("ca".to_string());
    assert_eq!(
        DockerVmManager::tear_down(&container, TeardownEvent::RemoveFailed("busy".to_string())),
        TeardownAction::Done(Err(EngineError::RuntimeCallFailed(
            "Failed to remove container: busy".to_string()
        )))
    );
}

#[test]
fn tear_down_of_a_session_without_container_is_over_at_once() {
    for event in [
        TeardownEvent::Started,
        TeardownEvent::Stopped,
        TeardownEvent::StopFailed("x".to_string()),
        TeardownEvent::Removed,
        TeardownEvent::RemoveFailed("x".to_string()),
    ] {
        assert_eq!(DockerVmManager::tear_down(&None, event), TeardownAction::Done(Ok(())));
    }
}

#[test]
fn a_destroyed_session_is_torn_down_from_what_destroy_hands_back() {
    let mut state = AppState::new();
    for id in ["a", "b"] {
        DockerVmManager::create_vm_session_at(&mut state, "sql-injection", id.to_string(), at(1))
            .unwrap();
    }
    DockerVmManager::complete_provisioning(&mut state, "a", ready("ca"));
    let container = DockerVmManager::destroy_session(&mut state, "a").unwrap();
    assert_eq!(
        DockerVmManager::tear_down(&container, TeardownEvent::Started),
        TeardownAction::StopContainer("ca".to_string())
    );
    let container = DockerVmManager::destroy_session(&mut state, "b").unwrap();
    assert_eq!(DockerVmManager::tear_down(&container, TeardownEvent::Started), TeardownAction::Done(Ok(())));
}

#[test]
fn sweep_removes_exactly_the_stale_sessions() {
    let mut state = AppState::new();
    // Idle at the sweep for 31 minutes, for exactly 30, not at all, and for
    // one second less than 31 minutes.
    for (id, last) in [("old", 0), ("edge", 60), ("new", 1860), ("almost", 1)] {
        DockerVmManager::create_vm_session_at(&mut state, "sql-injection", id.to_string(), at(last))
            .unwrap();
    }
    DockerVmManager::complete_provisioning(&mut state, "old", ready("c-old"));
    let before_new = DockerVmManager::get_session(&state, "new").unwrap();
    let before_edge = DockerVmManager::get_session(&state, "edge").unwrap();
    let mut removed = DockerVmManager::cleanup_inactive_sessions_at(&mut state, 30, at(1860));
    removed.sort_by(|a, b| a.id.cmp(&b.id));
    assert_eq!(sorted_ids(&removed), vec!["almost", "old"]);
    assert_eq!(removed[0].container_id, None);
    assert_eq!(removed[1].container_id, Some("c-old".to_string()));
    assert_eq!(sorted_ids(&DockerVmManager::list_sessions(&state)), vec!["edge", "new"]);
    assert_eq!(DockerVmManager::get_session(&state, "new").unwrap(), before_new);
    assert_eq!(DockerVmManager::get_session(&state, "edge").unwrap(), before_edge);
}

#[test]
fn sweep_removes_a_session_idle_for_a_part_of_a_minute_too_long() {
    let mut state = AppState::new();
    DockerVmManager::create_vm_session_at(&mut state, "sql-injection", "s".to_string(), at(0))
        .unwrap();
    let removed = DockerVmManager::cleanup_inactive_sessions_at(&mut state, 30, at(1859));
    assert_eq!(sorted_ids(&removed), vec!["s"]);
    assert!(DockerVmManager::list_sessions(&state).is_empty());
}

#[test]
fn sweep_compares_to_the_nanosecond() {
    let mut state = AppState::new();
    DockerVmManager::create_vm_session_at(
        &mut state,
        "sql-injection",
        "s".to_string(),
        Timestamp { secs: 100, nanos: 1 },
    )
    .unwrap();
    // One nanosecond short of 30 minutes, and then exactly 30 minutes: not
    // longer than 30 minutes.
    assert!(DockerVmManager::cleanup_inactive_sessions_at(&mut state, 30, at(100 + 30 * 60))
        .is_empty());
    assert!(DockerVmManager::cleanup_inactive_sessions_at(
        &mut state,
        30,
        Timestamp { secs: 100 + 30 * 60, nanos: 1 },
    )
    .is_empty());
    assert_eq!(DockerVmManager::list_sessions(&state).len(), 1);
    // One nanosecond more than 30 minutes.
    let removed = DockerVmManager::cleanup_inactive_sessions_at(
        &mut state,
        30,
        Timestamp { secs: 100 + 30 * 60, nanos: 2 },
    );
    assert_eq!(sorted_ids(&removed), vec!["s"]);
    assert!(DockerVmManager::list_sessions(&state).is_empty());
}

#[test]
fn sweep_with_thresholds_at_the_edges() {
    let mut state = AppState::new();
    for id in ["a", "b"] {
        DockerVmManager::create_vm_session_at(&mut state, "sql-injection", id.to_string(), at(600))
            .unwrap();
    }
    // A clock that went back makes nobody stale, even with the threshold 0,
    // and nobody is stale at the moment of the last activity.
    assert!(DockerVmManager::cleanup_inactive_sessions_at(&mut state, 0, at(0)).is_empty());
    assert!(DockerVmManager::cleanup_inactive_sessions_at(&mut state, 0, at(600)).is_empty());
    assert!(DockerVmManager::cleanup_inactive_sessions_at(&mut state, i64::MAX, at(i64::MAX))
        .is_empty());
    // A session as far ahead of the clock as the negative threshold stays.
    assert!(DockerVmManager::cleanup_inactive_sessions_at(&mut state, -1, at(540)).is_empty());
    // A negative threshold takes every session that is not ahead of the clock.
    let removed = DockerVmManager::cleanup_inactive_sessions_at(&mut state, -1, at(600));
    assert_eq!(sorted_ids(&removed), vec!["a", "b"]);
    assert!(DockerVmManager::cleanup_inactive_sessions_at(&mut state, -1, at(600)).is_empty());
}

#[test]
fn sweep_with_the_threshold_zero_takes_whatever_idled() {
    let mut state = AppState::new();
    for (id, last) in [("a", 600), ("b", 660)] {
        DockerVmManager::create_vm_session_at(&mut state, "sql-injection", id.to_string(), at(last))
            .unwrap();
    }
    let removed = DockerVmManager::cleanup_inactive_sessions_at(&mut state, 0, at(600 + 59));
    assert_eq!(sorted_ids(&removed), vec!["a"]);
    assert_eq!(sorted_ids(&DockerVmManager::list_sessions(&state)), vec!["b"]);
}

#[test]
fn sweep_at_the_present_time() {
    let mut state = AppState::new();
    DockerVmManager::create_vm_session_at(&mut state, "sql-injection", "old".to_string(), at(0))
        .unwrap();
    let fresh = DockerVmManager::create_vm_session(&mut state, "sql-injection").unwrap();
    let removed = DockerVmManager::cleanup_inactive_sessions(&mut state, 30);
    assert_eq!(sorted_ids(&removed), vec!["old"]);
    assert_eq!(sorted_ids(&DockerVmManager::list_sessions(&state)), vec![fresh.id.clone()]);
}

#[test]
fn runtime_failures_name_their_call() {
    for (call, text) in [
        (RuntimeCall::InspectContainer, "Failed to inspect container: boom"),
        (RuntimeCall::CreateExec, "Failed to create exec: boom"),
        (RuntimeCall::StartExec, "Failed to start exec stream: boom"),
        (RuntimeCall::InspectExec, "Failed to inspect exec: boom"),
        (RuntimeCall::CreateContainer, "Failed to create container: boom"),
        (RuntimeCall::StartContainer, "Failed to start container: boom"),
        (RuntimeCall::RemoveContainer, "Failed to remove container: boom"),
        (RuntimeCall::BindPort, "Failed to bind to port: boom"),
        (RuntimeCall::LocalAddress, "Failed to get local addr: boom"),
    ] {
        assert_eq!(call.failed("boom"), EngineError::RuntimeCallFailed(text.to_string()));
        assert_eq!(call.failed("boom").message(), text);
    }
}

#[test]
fn every_error_says_what_failed() {
    for (error, text) in [
        (EngineError::UnknownChallenge("xss".to_string()), "Unknown challenge: xss"),
        (EngineError::SessionNotFound("s1".to_string()), "Session not found: s1"),
        (EngineError::SessionFailed(None), "Session failed"),
        (EngineError::SessionFailed(Some("no image".to_string())), "Session error: no image"),
        (EngineError::SessionStopped, "Session is stopped"),
        (EngineError::ReadinessTimeout, "Timeout waiting for session to be ready"),
        (EngineError::ContainerNotRunning, "Container is not running"),
        (
            EngineError::ImageNotFound("a:b".to_string()),
            "Docker image 'a:b' not found. Please build it first with: docker build -t a:b -f Dockerfile.firecracker .",
        ),
        (EngineError::RuntimeCallFailed("whatever".to_string()), "whatever"),
    ] {
        assert_eq!(error.message(), text);
    }
}
