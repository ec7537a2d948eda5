//! The provisioning of a session's sandbox, as a machine that is moved by
//! events: the image is checked, two host ports are found, the container is
//! created and started, and its services are given a moment to come up.

use crate::challenge::{ChallengeConfig, ChallengeView};
use crate::docker_vm::{DockerVmManager, Provisioning, ProvisioningView, RuntimeCall};
use crate::error::{concat, EngineError, ErrorView};
use vstd::prelude::*;
use vstd::string::StringExecFns;

verus! {

/// Bytes of memory that a sandbox may use.
pub const SANDBOX_MEMORY_BYTES: i64 = 536_870_912;

/// The weight of a sandbox in the sharing of processor time.
pub const SANDBOX_CPU_SHARES: i64 = 512;

/// Milliseconds that the services of a sandbox are given to come up.
pub const STARTUP_GRACE_MILLIS: u64 = 3000;

/// The binding of a port of the container to a port of the host.
#[derive(Debug, PartialEq, Eq)]
pub struct PortBinding {
    pub container_port: String,
    pub host_ip: String,
    pub host_port: u16,
}

/// The model of a [`PortBinding`].
pub struct BindingView {
    pub container_port: Seq<char>,
    pub host_ip: Seq<char>,
    pub host_port: u16,
}

impl View for PortBinding {
    type V = BindingView;

    open spec fn view(&self) -> BindingView {
        BindingView {
            container_port: self.container_port@,
            host_ip: self.host_ip@,
            host_port: self.host_port,
        }
    }
}

/// The container that a sandbox runs in.
#[derive(Debug, PartialEq, Eq)]
pub struct ContainerSpec {
    pub name: String,
    pub image: String,
    /// The environment, one `NAME=value` per variable.
    pub env: Vec<String>,
    pub exposed_ports: Vec<String>,
    pub port_bindings: Vec<PortBinding>,
    pub privileged: bool,
    pub memory_bytes: i64,
    pub cpu_shares: i64,
    pub working_dir: String,
}

/// The mathematical model of a [`ContainerSpec`].
pub struct SpecView {
    pub name: Seq<char>,
    pub image: Seq<char>,
    pub env: Seq<Seq<char>>,
    pub exposed_ports: Seq<Seq<char>>,
    pub port_bindings: Seq<BindingView>,
    pub privileged: bool,
    pub memory_bytes: i64,
    pub cpu_shares: i64,
    pub working_dir: Seq<char>,
}

/// The model of each binding of a list.
pub open spec fn binding_views(list: Seq<PortBinding>) -> Seq<BindingView> {
    Seq::new(list.len(), |i: int| list[i]@)
}

impl View for ContainerSpec {
    type V = SpecView;

    open spec fn view(&self) -> SpecView {
        SpecView {
            name: self.name@,
            image: self.image@,
            env: crate::docker_vm::texts(self.env@),
            exposed_ports: crate::docker_vm::texts(self.exposed_ports@),
            port_bindings: binding_views(self.port_bindings@),
            privileged: self.privileged,
            memory_bytes: self.memory_bytes,
            cpu_shares: self.cpu_shares,
            working_dir: self.working_dir@,
        }
    }
}

/// The environment of a container: each variable as `NAME=value`, in the
/// order of the list.
pub open spec fn env_lines(variables: Seq<(Seq<char>, Seq<char>)>) -> Seq<Seq<char>> {
    Seq::new(variables.len(), |i: int| variables[i].0 + "="@ + variables[i].1)
}

/// The container of a session: named after the session, made from the
/// challenge's image with the challenge's environment, with the shell port
/// and the web port bound to the two host ports on the loopback address,
/// not privileged, under the fixed quota, in the home directory.
pub open spec fn container_spec(
    challenge: ChallengeView,
    session_id: Seq<char>,
    ssh_port: u16,
    web_port: u16,
) -> SpecView {
    SpecView {
        name: "leethack-vm-"@ + session_id,
        image: challenge.docker_image,
        env: env_lines(challenge.environment_vars),
        exposed_ports: seq!["2222/tcp"@, "8080/tcp"@],
        port_bindings: seq![
            BindingView { container_port: "2222/tcp"@, host_ip: "127.0.0.1"@, host_port: ssh_port },
            BindingView { container_port: "8080/tcp"@, host_ip: "127.0.0.1"@, host_port: web_port },
        ],
        privileged: false,
        memory_bytes: SANDBOX_MEMORY_BYTES,
        cpu_shares: SANDBOX_CPU_SHARES,
        working_dir: crate::paths::home_directory(),
    }
}

/// Where the provisioning of a sandbox stands.
#[derive(Clone, Copy, Debug, PartialEq, Eq, Structural)]
pub enum ProvisionPhase {
    CheckingImage,
    FindingSshPort,
    FindingWebPort,
    CreatingContainer,
    StartingContainer,
    Settling,
    Finished,
}

/// The provisioning of the sandbox of one session.
#[derive(Debug, PartialEq, Eq)]
pub struct ProvisionRun {
    pub challenge: ChallengeConfig,
    pub session_id: String,
    pub phase: ProvisionPhase,
    pub ssh_port: u16,
    pub web_port: u16,
    pub container_id: String,
}

/// The mathematical model of a [`ProvisionRun`].
pub struct ProvisionView {
    pub challenge: ChallengeView,
    pub session_id: Seq<char>,
    pub phase: ProvisionPhase,
    pub ssh_port: u16,
    pub web_port: u16,
    pub container_id: Seq<char>,
}

impl View for ProvisionRun {
    type V = ProvisionView;

    open spec fn view(&self) -> ProvisionView {
        ProvisionView {
            challenge: self.challenge@,
            session_id: self.session_id@,
            phase: self.phase,
            ssh_port: self.ssh_port,
            web_port: self.web_port,
            container_id: self.container_id@,
        }
    }
}

impl ProvisionRun {
    /// The provisioning of the sandbox of a session, before its first event.
    pub fn new(challenge: ChallengeConfig, session_id: &str) -> (run: ProvisionRun)
        ensures
            run@ == (ProvisionView {
                challenge: challenge@,
                session_id: session_id@,
                phase: ProvisionPhase::CheckingImage,
                ssh_port: 0,
                web_port: 0,
                container_id: Seq::empty(),
            }),
    {
        ProvisionRun {
            challenge,
            session_id: String::from_str(session_id),
            phase: ProvisionPhase::CheckingImage,
            ssh_port: 0,
            web_port: 0,
            container_id: String::new(),
        }
    }
}

/// What happened since the last action that a provisioning asked for.
#[derive(Debug, PartialEq, Eq)]
pub enum ProvisionEvent {
    /// Nothing yet: the provisioning begins.
    Started,
    /// The image was looked for: whether it is there.
    ImageChecked(bool),
    /// A free host port was found.
    PortFound(u16),
    /// No socket could be bound, for the reason given.
    BindFailed(String),
    /// The address of the bound socket could not be read, for the reason
    /// given.
    AddressFailed(String),
    /// The container was created, with this id.
    ContainerCreated(String),
    /// The container was started.
    ContainerStarted,
    /// The runtime call that was asked for failed, for the reason given.
    CallFailed(String),
    /// The sleep that was asked for is over.
    Woke,
}

/// The mathematical model of a [`ProvisionEvent`].
pub enum ProvisionEventView {
    Started,
    ImageChecked(bool),
    PortFound(u16),
    BindFailed(Seq<char>),
    AddressFailed(Seq<char>),
    ContainerCreated(Seq<char>),
    ContainerStarted,
    CallFailed(Seq<char>),
    Woke,
}

impl View for ProvisionEvent {
    type V = ProvisionEventView;

    open spec fn view(&self) -> ProvisionEventView {
        match self {
            ProvisionEvent::Started => ProvisionEventView::Started,
            ProvisionEvent::ImageChecked(present) => ProvisionEventView::ImageChecked(*present),
            ProvisionEvent::PortFound(port) => ProvisionEventView::PortFound(*port),
            ProvisionEvent::BindFailed(reason) => ProvisionEventView::BindFailed(reason@),
            ProvisionEvent::AddressFailed(reason) => ProvisionEventView::AddressFailed(reason@),
            ProvisionEvent::ContainerCreated(id) => ProvisionEventView::ContainerCreated(id@),
            ProvisionEvent::ContainerStarted => ProvisionEventView::ContainerStarted,
            ProvisionEvent::CallFailed(reason) => ProvisionEventView::CallFailed(reason@),
            ProvisionEvent::Woke => ProvisionEventView::Woke,
        }
    }
}

/// What a provisioning asks its caller to do next.
#[derive(Debug, PartialEq, Eq)]
pub enum ProvisionAction {
    /// Ask the runtime whether it holds this image. It is not to be pulled.
    InspectImage(String),
    /// Find a free port of the host by binding a socket to port 0 of the
    /// loopback address and letting it go again.
    FindPort,
    /// Create this container.
    CreateContainer(ContainerSpec),
    /// Start the container with this id.
    StartContainer(String),
    /// Sleep for so many milliseconds, then report `Woke`.
    Sleep(u64),
    /// The provisioning is over, with this outcome: record it.
    Done(Provisioning),
    /// The provisioning is over; nothing is handed back.
    Closed,
}

/// The mathematical model of a [`ProvisionAction`].
pub enum ProvisionActionView {
    InspectImage(Seq<char>),
    FindPort,
    CreateContainer(SpecView),
    StartContainer(Seq<char>),
    Sleep(u64),
    Done(ProvisioningView),
    Closed,
}

impl View for ProvisionAction {
    type V = ProvisionActionView;

    open spec fn view(&self) -> ProvisionActionView {
        match self {
            ProvisionAction::InspectImage(image) => ProvisionActionView::InspectImage(image@),
            ProvisionAction::FindPort => ProvisionActionView::FindPort,
            ProvisionAction::CreateContainer(spec) => ProvisionActionView::CreateContainer(spec@),
            ProvisionAction::StartContainer(id) => ProvisionActionView::StartContainer(id@),
            ProvisionAction::Sleep(millis) => ProvisionActionView::Sleep(*millis),
            ProvisionAction::Done(outcome) => ProvisionActionView::Done(outcome@),
            ProvisionAction::Closed => ProvisionActionView::Closed,
        }
    }
}

/// The action that a provisioning is waiting on.
pub open spec fn provision_pending(run: ProvisionView) -> ProvisionActionView {
    match run.phase {
        ProvisionPhase::CheckingImage => ProvisionActionView::InspectImage(
            run.challenge.docker_image,
        ),
        ProvisionPhase::FindingSshPort => ProvisionActionView::FindPort,
        ProvisionPhase::FindingWebPort => ProvisionActionView::FindPort,
        ProvisionPhase::CreatingContainer => ProvisionActionView::CreateContainer(
            container_spec(run.challenge, run.session_id, run.ssh_port, run.web_port),
        ),
        ProvisionPhase::StartingContainer => ProvisionActionView::StartContainer(run.container_id),
        ProvisionPhase::Settling => ProvisionActionView::Sleep(STARTUP_GRACE_MILLIS),
        ProvisionPhase::Finished => ProvisionActionView::Closed,
    }
}

/// The provisioning in its next phase, and the action of that phase.
pub open spec fn advancing(run: ProvisionView) -> (ProvisionView, ProvisionActionView) {
    (run, provision_pending(run))
}

/// The end of a provisioning in failure.
pub open spec fn failing(run: ProvisionView, error: ErrorView) -> (ProvisionView, ProvisionActionView) {
    (
        ProvisionView { phase: ProvisionPhase::Finished, ..run },
        ProvisionActionView::Done(ProvisioningView::Failed(error)),
    )
}

/// One step of a provisioning: the provisioning after it, and the action
/// that is asked for.
///
/// Each phase takes the event that answers its action; an event that does
/// not is passed over, and the action is asked for again. An image that is
/// not there, or cannot be asked after, ends the provisioning: it is never
/// pulled. Any other failed call ends it with an error that names the call.
/// Nothing is tried twice.
pub open spec fn provision_step(run: ProvisionView, event: ProvisionEventView) -> (
    ProvisionView,
    ProvisionActionView,
) {
    match run.phase {
        ProvisionPhase::CheckingImage => match event {
            ProvisionEventView::ImageChecked(true) => advancing(
                ProvisionView { phase: ProvisionPhase::FindingSshPort, ..run },
            ),
            ProvisionEventView::ImageChecked(false) => failing(
                run,
                ErrorView::ImageNotFound(run.challenge.docker_image),
            ),
            ProvisionEventView::CallFailed(_) => failing(
                run,
                ErrorView::ImageNotFound(run.challenge.docker_image),
            ),
            _ => advancing(run),
        },
        ProvisionPhase::FindingSshPort => match event {
            ProvisionEventView::PortFound(port) => advancing(
                ProvisionView { phase: ProvisionPhase::FindingWebPort, ssh_port: port, ..run },
            ),
            ProvisionEventView::BindFailed(reason) => failing(
                run,
                RuntimeCall::BindPort.failure(reason),
            ),
            ProvisionEventView::AddressFailed(reason) => failing(
                run,
                RuntimeCall::LocalAddress.failure(reason),
            ),
            _ => advancing(run),
        },
        ProvisionPhase::FindingWebPort => match event {
            ProvisionEventView::PortFound(port) => advancing(
                ProvisionView { phase: ProvisionPhase::CreatingContainer, web_port: port, ..run },
            ),
            ProvisionEventView::BindFailed(reason) => failing(
                run,
                RuntimeCall::BindPort.failure(reason),
            ),
            ProvisionEventView::AddressFailed(reason) => failing(
                run,
                RuntimeCall::LocalAddress.failure(reason),
            ),
            _ => advancing(run),
        },
        ProvisionPhase::CreatingContainer => match event {
            ProvisionEventView::ContainerCreated(id) => advancing(
                ProvisionView { phase: ProvisionPhase::StartingContainer, container_id: id, ..run },
            ),
            ProvisionEventView::CallFailed(reason) => failing(
                run,
                RuntimeCall::CreateContainer.failure(reason),
            ),
            _ => advancing(run),
        },
        ProvisionPhase::StartingContainer => match event {
            ProvisionEventView::ContainerStarted => advancing(
                ProvisionView { phase: ProvisionPhase::Settling, ..run },
            ),
            ProvisionEventView::CallFailed(reason) => failing(
                run,
                RuntimeCall::StartContainer.failure(reason),
            ),
            _ => advancing(run),
        },
        ProvisionPhase::Settling => match event {
            ProvisionEventView::Woke => (
                ProvisionView { phase: ProvisionPhase::Finished, ..run },
                ProvisionActionView::Done(
                    ProvisioningView::Ready {
                        container_id: run.container_id,
                        ssh_port: run.ssh_port,
                        web_port: run.web_port,
                    },
                ),
            ),
            _ => advancing(run),
        },
        ProvisionPhase::Finished => advancing(run),
    }
}

/// Writes the environment of a container.
pub fn make_env(variables: &Vec<(String, String)>) -> (lines: Vec<String>)
    ensures
        crate::docker_vm::texts(lines@) == env_lines(crate::challenge::pairs_view(variables@)),
{
    let mut lines: Vec<String> = Vec::new();
    let mut i: usize = 0;
    while i < variables.len()
        invariant
            i <= variables.len(),
            lines@.len() == i,
            forall|k: int|
                0 <= k < i ==> (#[trigger] lines@[k])@ == variables@[k].0@ + "="@ + variables@[k].1@,
        decreases variables.len() - i,
    {
        let mut line = concat(variables[i].0.as_str(), "=");
        line.append(variables[i].1.as_str());
        lines.push(line);
        i += 1;
    }
    proof {
        assert(crate::docker_vm::texts(lines@) =~= env_lines(
            crate::challenge::pairs_view(variables@),
        ));
    }
    lines
}

/// Ends a provisioning in failure.
fn fail_provisioning(run: &mut ProvisionRun, error: EngineError) -> (action: ProvisionAction)
    ensures
        (final(run)@, action@) == failing(old(run)@, error@),
{
    run.phase = ProvisionPhase::Finished;
    ProvisionAction::Done(Provisioning::Failed(error))
}

impl DockerVmManager {
    /// Writes the container of a session.
    pub fn create_docker_container(
        challenge_config: &ChallengeConfig,
        session_id: &str,
        ssh_port: u16,
        web_port: u16,
    ) -> (spec: ContainerSpec)
        ensures
            spec@ == container_spec(challenge_config@, session_id@, ssh_port, web_port),
    {
        let mut exposed: Vec<String> = Vec::new();
        exposed.push(String::from_str("2222/tcp"));
        exposed.push(String::from_str("8080/tcp"));
        let mut bindings: Vec<PortBinding> = Vec::new();
        bindings.push(
            PortBinding {
                container_port: String::from_str("2222/tcp"),
                host_ip: String::from_str("127.0.0.1"),
                host_port: ssh_port,
            },
        );
        bindings.push(
            PortBinding {
                container_port: String::from_str("8080/tcp"),
                host_ip: String::from_str("127.0.0.1"),
                host_port: web_port,
            },
        );
        let spec = ContainerSpec {
            name: concat("leethack-vm-", session_id),
            image: challenge_config.docker_image.clone(),
            env: make_env(&challenge_config.environment_vars),
            exposed_ports: exposed,
            port_bindings: bindings,
            privileged: false,
            memory_bytes: SANDBOX_MEMORY_BYTES,
            cpu_shares: SANDBOX_CPU_SHARES,
            working_dir: String::from_str("/home/hacker"),
        };
        proof {
            let goal = container_spec(challenge_config@, session_id@, ssh_port, web_port);
            assert(spec@.exposed_ports =~= goal.exposed_ports);
            assert(spec@.port_bindings =~= goal.port_bindings);
        }
        spec
    }

    /// The action that a provisioning is waiting on.
    fn provision_pending_action(run: &ProvisionRun) -> (action: ProvisionAction)
        ensures
            action@ == provision_pending(run@),
    {
        match run.phase {
            ProvisionPhase::CheckingImage => ProvisionAction::InspectImage(
                run.challenge.docker_image.clone(),
            ),
            ProvisionPhase::FindingSshPort => ProvisionAction::FindPort,
            ProvisionPhase::FindingWebPort => ProvisionAction::FindPort,
            ProvisionPhase::CreatingContainer => ProvisionAction::CreateContainer(
                Self::create_docker_container(
                    &run.challenge,
                    run.session_id.as_str(),
                    run.ssh_port,
                    run.web_port,
                ),
            ),
            ProvisionPhase::StartingContainer => ProvisionAction::StartContainer(
                run.container_id.clone(),
            ),
            ProvisionPhase::Settling => ProvisionAction::Sleep(STARTUP_GRACE_MILLIS),
            ProvisionPhase::Finished => ProvisionAction::Closed,
        }
    }

    /// Moves the provisioning of a sandbox by one event and says what the
    /// caller is to do next.
    pub fn provision(run: &mut ProvisionRun, event: ProvisionEvent) -> (action: ProvisionAction)
        ensures
            (final(run)@, action@) == provision_step(old(run)@, event@),
    {
        match run.phase {
            ProvisionPhase::CheckingImage => match event {
                ProvisionEvent::ImageChecked(true) => {
                    run.phase = ProvisionPhase::FindingSshPort;
                    Self::provision_pending_action(run)
                },
                ProvisionEvent::ImageChecked(false) => {
                    let error = EngineError::ImageNotFound(run.challenge.docker_image.clone());
                    fail_provisioning(run, error)
                },
                ProvisionEvent::CallFailed(_) => {
                    let error = EngineError::ImageNotFound(run.challenge.docker_image.clone());
                    fail_provisioning(run, error)
                },
                _ => Self::provision_pending_action(run),
            },
            ProvisionPhase::FindingSshPort => match event {
                ProvisionEvent::PortFound(port) => {
                    run.phase = ProvisionPhase::FindingWebPort;
                    run.ssh_port = port;
                    Self::provision_pending_action(run)
                },
                ProvisionEvent::BindFailed(reason) => {
                    let error = RuntimeCall::BindPort.failed(reason.as_str());
                    fail_provisioning(run, error)
                },
                ProvisionEvent::AddressFailed(reason) => {
                    let error = RuntimeCall::LocalAddress.failed(reason.as_str());
                    fail_provisioning(run, error)
                },
                _ => Self::provision_pending_action(run),
            },
            ProvisionPhase::FindingWebPort => match event {
                ProvisionEvent::PortFound(port) => {
                    run.phase = ProvisionPhase::CreatingContainer;
                    run.web_port = port;
                    Self::provision_pending_action(run)
                },
                ProvisionEvent::BindFailed(reason) => {
                    let error = RuntimeCall::BindPort.failed(reason.as_str());
                    fail_provisioning(run, error)
                },
                ProvisionEvent::AddressFailed(reason) => {
                    let error = RuntimeCall::LocalAddress.failed(reason.as_str());
                    fail_provisioning(run, error)
                },
                _ => Self::provision_pending_action(run),
            },
            ProvisionPhase::CreatingContainer => match event {
                ProvisionEvent::ContainerCreated(id) => {
                    run.phase = ProvisionPhase::StartingContainer;
                    run.container_id = id;
                    Self::provision_pending_action(run)
                },
                ProvisionEvent::CallFailed(reason) => {
                    let error = RuntimeCall::CreateContainer.failed(reason.as_str());
                    fail_provisioning(run, error)
                },
                _ => Self::provision_pending_action(run),
            },
            ProvisionPhase::StartingContainer => match event {
                ProvisionEvent::ContainerStarted => {
                    run.phase = ProvisionPhase::Settling;
                    Self::provision_pending_action(run)
                },
                ProvisionEvent::CallFailed(reason) => {
                    let error = RuntimeCall::StartContainer.failed(reason.as_str());
                    fail_provisioning(run, error)
                },
                _ => Self::provision_pending_action(run),
            },
            ProvisionPhase::Settling => match event {
                ProvisionEvent::Woke => {
                    run.phase = ProvisionPhase::Finished;
                    ProvisionAction::Done(
                        Provisioning::Ready {
                            container_id: run.container_id.clone(),
                            ssh_port: run.ssh_port,
                            web_port: run.web_port,
                        },
                    )
                },
                _ => Self::provision_pending_action(run),
            },
            ProvisionPhase::Finished => ProvisionAction::Closed,
        }
    }
}

} // verus!
