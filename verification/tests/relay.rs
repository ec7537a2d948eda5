use leethack_backend::dispatcher::{CommandRun, ExecAction, ExecEvent, ExecRequest, LogFrame, RunPhase};
use leethack_backend::docker_vm::{DockerVmManager, Provisioning};
use leethack_backend::error::EngineError;
use leethack_backend::relay::{RelayAction, RelayEvent};
use leethack_backend::{AppState, Timestamp};

fn at(secs: i64) -> Timestamp {
    Timestamp { secs, nanos: 0 }
}

fn state_with(outcome: Option<Provisioning>) -> AppState {
    let mut state = AppState::new();
    DockerVmManager::create_vm_session_at(&mut state, "sql-injection", "s1".to_string(), at(10))
        .unwrap();
    if let Some(outcome) = outcome {
        assert!(DockerVmManager::complete_provisioning(&mut state, "s1", outcome));
    }
    state
}

fn ready() -> Provisioning {
    Provisioning::Ready { container_id: "c1".to_string(), ssh_port: 1, web_port: 2 }
}

#[test]
fn an_interactive_run_ends_in_the_relay() {
    let state = state_with(Some(ready()));
    let mut run = CommandRun::new("s1", "vim notes");
    assert_eq!(
        DockerVmManager::execute_interactive_command_at(&state, &mut run, ExecEvent::Started, at(100)),
        ExecAction::CreateExec(ExecRequest {
            container_id: "c1".to_string(),
            command: vec!["bash".to_string(), "-c".to_string(), "vim notes".to_string()],
            working_dir: "/home/hacker".to_string(),
            user: "root".to_string(),
            tty: true,
            attach_stdin: true,
            attach_stdout: true,
            attach_stderr: true,
        })
    );
    assert_eq!(
        DockerVmManager::execute_interactive_command_at(
            &state,
            &mut run,
            ExecEvent::ExecCreated("e7".to_string()),
            at(101)
        ),
        ExecAction::StartExec("e7".to_string())
    );
    assert_eq!(
        DockerVmManager::execute_interactive_command_at(
            &state,
            &mut run,
            ExecEvent::ExecAttached(true),
            at(102)
        ),
        ExecAction::Relay
    );
    assert_eq!(
        DockerVmManager::execute_interactive_command_at(&state, &mut run, ExecEvent::Woke, at(103)),
        ExecAction::Relay
    );
    assert_eq!(
        DockerVmManager::execute_interactive_command_at(&state, &mut run, ExecEvent::RelayEnded, at(104)),
        ExecAction::Closed
    );
    assert_eq!(run.phase, RunPhase::Finished);
    // The session was read, never written.
    assert_eq!(DockerVmManager::get_session(&state, "s1").unwrap().last_activity, at(10));
}

#[test]
fn an_interactive_run_reports_why_the_session_failed() {
    let failed = Provisioning::Failed(EngineError::RuntimeCallFailed("no disk".to_string()));
    let state = state_with(Some(failed));
    let mut run = CommandRun::new("s1", "vim");
    assert_eq!(
        DockerVmManager::execute_interactive_command_at(&state, &mut run, ExecEvent::Started, at(100)),
        ExecAction::Done(Err(EngineError::SessionFailed(Some("no disk".to_string()))))
    );
    assert_eq!(
        EngineError::SessionFailed(Some("no disk".to_string())).message(),
        "Session error: no disk"
    );
}

#[test]
fn an_interactive_run_for_an_absent_session_is_not_found() {
    let state = AppState::new();
    let mut run = CommandRun::new("ghost", "vim");
    assert_eq!(
        DockerVmManager::execute_interactive_command_at(&state, &mut run, ExecEvent::Started, at(100)),
        ExecAction::Done(Err(EngineError::SessionNotFound("ghost".to_string())))
    );
    let mut run = CommandRun::new("ghost", "vim");
    assert_eq!(
        DockerVmManager::execute_interactive_command(&state, &mut run, ExecEvent::Started),
        ExecAction::Done(Err(EngineError::SessionNotFound("ghost".to_string())))
    );
}

#[test]
fn an_interactive_run_waits_for_a_starting_session_and_gives_up() {
    let state = state_with(None);
    let mut run = CommandRun::new("s1", "vim");
    for _ in 0..20 {
        assert_eq!(
            DockerVmManager::execute_interactive_command_at(&state, &mut run, ExecEvent::Woke, at(100)),
            ExecAction::Sleep(500)
        );
    }
    assert_eq!(
        DockerVmManager::execute_interactive_command_at(&state, &mut run, ExecEvent::Woke, at(100)),
        ExecAction::Done(Err(EngineError::ReadinessTimeout))
    );
}

#[test]
fn an_interactive_run_does_not_answer_clear_itself() {
    let state = state_with(Some(ready()));
    let mut run = CommandRun::new("s1", "clear");
    match DockerVmManager::execute_interactive_command_at(&state, &mut run, ExecEvent::Started, at(100)) {
        ExecAction::CreateExec(request) => assert_eq!(request.command[2], "clear"),
        other => panic!("{:?}", other),
    }
}

#[test]
fn an_interactive_run_names_the_call_that_failed() {
    let state = state_with(Some(ready()));
    let mut run = CommandRun::new("s1", "vim");
    DockerVmManager::execute_interactive_command_at(&state, &mut run, ExecEvent::Started, at(100));
    assert_eq!(
        DockerVmManager::execute_interactive_command_at(
            &state,
            &mut run,
            ExecEvent::CallFailed("x".to_string()),
            at(100)
        ),
        ExecAction::Done(Err(EngineError::RuntimeCallFailed("Failed to create exec: x".to_string())))
    );
    let mut run = CommandRun::new("s1", "vim");
    DockerVmManager::execute_interactive_command_at(&state, &mut run, ExecEvent::Started, at(100));
    DockerVmManager::execute_interactive_command_at(
        &state,
        &mut run,
        ExecEvent::ExecCreated("e".to_string()),
        at(100),
    );
    assert_eq!(
        DockerVmManager::execute_interactive_command_at(
            &state,
            &mut run,
            ExecEvent::ExecAttached(false),
            at(100)
        ),
        ExecAction::Done(Err(EngineError::RuntimeCallFailed(
            "Unexpected detached exec result".to_string()
        )))
    );
}

#[test]
fn the_relay_forwards_output_until_the_client_is_gone() {
    assert_eq!(
        DockerVmManager::relay_step(RelayEvent::OutputFrame(LogFrame::StdOut(b"hi".to_vec()))),
        RelayAction::Deliver("hi".to_string())
    );
    assert_eq!(
        DockerVmManager::relay_step(RelayEvent::OutputFrame(LogFrame::StdErr(vec![b'a', 0x80]))),
        RelayAction::Deliver("a\u{FFFD}".to_string())
    );
    assert_eq!(DockerVmManager::relay_step(RelayEvent::Delivered(true)), RelayAction::ReadOutput);
    assert_eq!(DockerVmManager::relay_step(RelayEvent::Delivered(false)), RelayAction::Stop);
    assert_eq!(DockerVmManager::relay_step(RelayEvent::OutputEnded), RelayAction::Stop);
    assert_eq!(DockerVmManager::relay_step(RelayEvent::OutputFailed), RelayAction::Stop);
}

#[test]
fn the_relay_writes_and_flushes_every_input() {
    assert_eq!(
        DockerVmManager::relay_step(RelayEvent::Input(":wq\n".to_string())),
        RelayAction::Write(b":wq\n".to_vec())
    );
    assert_eq!(
        DockerVmManager::relay_step(RelayEvent::Input("é€".to_string())),
        RelayAction::Write(vec![0xc3, 0xa9, 0xe2, 0x82, 0xac])
    );
    assert_eq!(
        DockerVmManager::relay_step(RelayEvent::Input(String::new())),
        RelayAction::Write(vec![])
    );
    assert_eq!(DockerVmManager::relay_step(RelayEvent::Written(true)), RelayAction::Flush);
    assert_eq!(DockerVmManager::relay_step(RelayEvent::Flushed(true)), RelayAction::ReadInput);
    assert_eq!(DockerVmManager::relay_step(RelayEvent::Written(false)), RelayAction::Stop);
    assert_eq!(DockerVmManager::relay_step(RelayEvent::Flushed(false)), RelayAction::Stop);
    assert_eq!(DockerVmManager::relay_step(RelayEvent::InputClosed), RelayAction::Stop);
}
