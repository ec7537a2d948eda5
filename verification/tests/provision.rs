use leethack_backend::challenge::ChallengeConfig;
use leethack_backend::docker_vm::{DockerVmManager, Provisioning};
use leethack_backend::error::EngineError;
use leethack_backend::provision::{
    make_env, ContainerSpec, PortBinding, ProvisionAction, ProvisionEvent, ProvisionPhase,
    ProvisionRun,
};

fn expected_spec() -> ContainerSpec {
    ContainerSpec {
        name: "leethack-vm-s1".to_string(),
        image: "leethack-vm:latest".to_string(),
        env: vec!["CHALLENGE_TYPE=sql_injection".to_string()],
        exposed_ports: vec!["2222/tcp".to_string(), "8080/tcp".to_string()],
        port_bindings: vec![
            PortBinding {
                container_port: "2222/tcp".to_string(),
                host_ip: "127.0.0.1".to_string(),
                host_port: 41000,
            },
            PortBinding {
                container_port: "8080/tcp".to_string(),
                host_ip: "127.0.0.1".to_string(),
                host_port: 42000,
            },
        ],
        privileged: false,
        memory_bytes: 512 * 1024 * 1024,
        cpu_shares: 512,
        working_dir: "/home/hacker".to_string(),
    }
}

fn run_to(events: Vec<ProvisionEvent>) -> (ProvisionRun, Option<ProvisionAction>) {
    let mut run = ProvisionRun::new(ChallengeConfig::sql_injection(), "s1");
    let mut last = None;
    for event in events {
        last = Some(DockerVmManager::provision(&mut run, event));
    }
    (run, last)
}

#[test]
fn the_container_of_a_session() {
    assert_eq!(
        DockerVmManager::create_docker_container(&ChallengeConfig::sql_injection(), "s1", 41000, 42000),
        expected_spec()
    );
}

#[test]
fn the_environment_keeps_the_order_of_its_variables() {
    let variables = vec![
        ("B".to_string(), "2".to_string()),
        ("A".to_string(), "x=y".to_string()),
        ("EMPTY".to_string(), String::new()),
    ];
    assert_eq!(make_env(&variables), vec!["B=2", "A=x=y", "EMPTY="]);
    assert!(make_env(&vec![]).is_empty());
}

#[test]
fn provisioning_runs_through_all_phases() {
    let mut run = ProvisionRun::new(ChallengeConfig::sql_injection(), "s1");
    assert_eq!(
        DockerVmManager::provision(&mut run, ProvisionEvent::Started),
        ProvisionAction::InspectImage("leethack-vm:latest".to_string())
    );
    assert_eq!(
        DockerVmManager::provision(&mut run, ProvisionEvent::ImageChecked(true)),
        ProvisionAction::FindPort
    );
    assert_eq!(
        DockerVmManager::provision(&mut run, ProvisionEvent::PortFound(41000)),
        ProvisionAction::FindPort
    );
    assert_eq!(
        DockerVmManager::provision(&mut run, ProvisionEvent::PortFound(42000)),
        ProvisionAction::CreateContainer(expected_spec())
    );
    assert_eq!(
        DockerVmManager::provision(&mut run, ProvisionEvent::ContainerCreated("c1".to_string())),
        ProvisionAction::StartContainer("c1".to_string())
    );
    assert_eq!(
        DockerVmManager::provision(&mut run, ProvisionEvent::ContainerStarted),
        ProvisionAction::Sleep(3000)
    );
    assert_eq!(
        DockerVmManager::provision(&mut run, ProvisionEvent::Woke),
        ProvisionAction::Done(Provisioning::Ready {
            container_id: "c1".to_string(),
            ssh_port: 41000,
            web_port: 42000,
        })
    );
    assert_eq!(run.phase, ProvisionPhase::Finished);
    assert_eq!(DockerVmManager::provision(&mut run, ProvisionEvent::Woke), ProvisionAction::Closed);
}

#[test]
fn a_missing_image_is_never_pulled() {
    let image_not_found = ProvisionAction::Done(Provisioning::Failed(EngineError::ImageNotFound(
        "leethack-vm:latest".to_string(),
    )));
    let (run, action) = run_to(vec![ProvisionEvent::ImageChecked(false)]);
    assert_eq!(action.as_ref(), Some(&image_not_found));
    assert_eq!(run.phase, ProvisionPhase::Finished);
    let (_, action) = run_to(vec![ProvisionEvent::CallFailed("daemon down".to_string())]);
    assert_eq!(action, Some(image_not_found));
}

#[test]
fn provisioning_failures_name_their_call() {
    let failed = |text: &str| {
        Some(ProvisionAction::Done(Provisioning::Failed(EngineError::RuntimeCallFailed(
            text.to_string(),
        ))))
    };
    let found = || ProvisionEvent::ImageChecked(true);
    let (_, action) = run_to(vec![found(), ProvisionEvent::BindFailed("in use".to_string())]);
    assert_eq!(action, failed("Failed to bind to port: in use"));
    let (_, action) = run_to(vec![
        found(),
        ProvisionEvent::PortFound(1),
        ProvisionEvent::AddressFailed("odd".to_string()),
    ]);
    assert_eq!(action, failed("Failed to get local addr: odd"));
    let (_, action) = run_to(vec![
        found(),
        ProvisionEvent::PortFound(1),
        ProvisionEvent::PortFound(2),
        ProvisionEvent::CallFailed("conflict".to_string()),
    ]);
    assert_eq!(action, failed("Failed to create container: conflict"));
    let (run, action) = run_to(vec![
        found(),
        ProvisionEvent::PortFound(1),
        ProvisionEvent::PortFound(2),
        ProvisionEvent::ContainerCreated("c".to_string()),
        ProvisionEvent::CallFailed("oom".to_string()),
    ]);
    assert_eq!(action, failed("Failed to start container: oom"));
    assert_eq!(run.phase, ProvisionPhase::Finished);
}

#[test]
fn provisioning_asks_again_after_an_event_that_answers_nothing() {
    let (run, action) = run_to(vec![
        ProvisionEvent::ImageChecked(true),
        ProvisionEvent::ContainerStarted,
        ProvisionEvent::Woke,
    ]);
    assert_eq!(action, Some(ProvisionAction::FindPort));
    assert_eq!(run.phase, ProvisionPhase::FindingSshPort);
    let (run, action) = run_to(vec![
        ProvisionEvent::ImageChecked(true),
        ProvisionEvent::PortFound(1),
        ProvisionEvent::PortFound(2),
        ProvisionEvent::ContainerCreated("c".to_string()),
        ProvisionEvent::ContainerStarted,
        ProvisionEvent::PortFound(3),
    ]);
    assert_eq!(action, Some(ProvisionAction::Sleep(3000)));
    assert_eq!((run.ssh_port, run.web_port), (1, 2));
}
