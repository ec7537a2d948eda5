//! The session lifecycle manager: it creates sessions, records how their
//! provisioning ended, destroys them and sweeps the idle ones.

use crate::challenge::{catalog_entry, ChallengeConfig};
use crate::error::{concat, EngineError, ErrorView};
use crate::session::{
    text_of, SessionView, StatusView, Timestamp, VmSession, VmStatus, NANOS_PER_MINUTE,
};
use crate::store::{registry_wf, AppState};
use vstd::prelude::*;
use vstd::string::StringExecFns;

verus! {

/// The operations of the session engine. It holds no state of its own: every
/// operation works on the state that it is handed.
pub struct DockerVmManager;

/// Whether `c` is a digit of lowercase hexadecimal.
pub open spec fn is_lower_hex(c: char) -> bool {
    ('0' <= c <= '9') || ('a' <= c <= 'f')
}

/// The shape of a session id: 36 characters, hyphens at the positions 8,
/// 13, 18 and 23, lowercase hexadecimal digits everywhere else.
pub open spec fn is_session_id(id: Seq<char>) -> bool {
    &&& id.len() == 36
    &&& forall|i: int|
        0 <= i < 36 ==> if i == 8 || i == 13 || i == 18 || i == 23 {
            #[trigger] id[i] == '-'
        } else {
            is_lower_hex(id[i])
        }
}

/// Calls `uuid::Uuid::new_v4` and writes the identifier out as `Display`
/// does: hyphenated, in lowercase. Which identifier comes is left open.
/// The call panics where the operating system gives no random bytes.
#[verifier::external_body]
pub(crate) fn fresh_session_id() -> (id: String)
    ensures
        is_session_id(id@),
{
    uuid::Uuid::new_v4().to_string()
}

/// Calls `chrono::Utc::now` and takes the seconds and nanoseconds of the
/// result. Which time comes is left open; the clock of `chrono` never
/// yields a leap second, so the nanoseconds stay below one second. The
/// call panics where the system clock stands before the Unix epoch.
#[verifier::external_body]
pub(crate) fn current_time() -> (now: Timestamp)
    ensures
        now.secs >= 0,
        now.nanos < 1_000_000_000,
{
    let now = chrono::Utc::now();
    Timestamp { secs: now.timestamp(), nanos: now.timestamp_subsec_nanos() }
}

/// A call of the container runtime.
#[derive(Clone, Copy, Debug, PartialEq, Eq, Structural)]
pub enum RuntimeCall {
    InspectContainer,
    CreateExec,
    StartExec,
    InspectExec,
    CreateContainer,
    StartContainer,
    RemoveContainer,
    BindPort,
    LocalAddress,
}

impl RuntimeCall {
    /// The words that open the report of a failure of this call.
    pub open spec fn failure_prefix(self) -> Seq<char> {
        match self {
            RuntimeCall::InspectContainer => "Failed to inspect container: "@,
            RuntimeCall::CreateExec => "Failed to create exec: "@,
            RuntimeCall::StartExec => "Failed to start exec stream: "@,
            RuntimeCall::InspectExec => "Failed to inspect exec: "@,
            RuntimeCall::CreateContainer => "Failed to create container: "@,
            RuntimeCall::StartContainer => "Failed to start container: "@,
            RuntimeCall::RemoveContainer => "Failed to remove container: "@,
            RuntimeCall::BindPort => "Failed to bind to port: "@,
            RuntimeCall::LocalAddress => "Failed to get local addr: "@,
        }
    }

    /// The failure of this call for the reason that the runtime gave.
    pub open spec fn failure(self, reason: Seq<char>) -> ErrorView {
        ErrorView::RuntimeCallFailed(self.failure_prefix() + reason)
    }

    /// Wraps the reason that the runtime gave for the failure of this call.
    pub fn failed(self, reason: &str) -> (error: EngineError)
        ensures
            error@ == self.failure(reason@),
    {
        let prefix = match self {
            RuntimeCall::InspectContainer => "Failed to inspect container: ",
            RuntimeCall::CreateExec => "Failed to create exec: ",
            RuntimeCall::StartExec => "Failed to start exec stream: ",
            RuntimeCall::InspectExec => "Failed to inspect exec: ",
            RuntimeCall::CreateContainer => "Failed to create container: ",
            RuntimeCall::StartContainer => "Failed to start container: ",
            RuntimeCall::RemoveContainer => "Failed to remove container: ",
            RuntimeCall::BindPort => "Failed to bind to port: ",
            RuntimeCall::LocalAddress => "Failed to get local addr: ",
        };
        EngineError::RuntimeCallFailed(concat(prefix, reason))
    }
}

/// What happened in the tear-down of the sandbox of a removed session.
#[derive(Debug, PartialEq, Eq)]
pub enum TeardownEvent {
    /// Nothing yet: the tear-down begins.
    Started,
    /// The container was stopped.
    Stopped,
    /// The container could not be stopped, for the reason given.
    StopFailed(String),
    /// The container was removed.
    Removed,
    /// The container could not be removed, for the reason given.
    RemoveFailed(String),
}

/// The mathematical model of a [`TeardownEvent`].
pub enum TeardownEventView {
    Started,
    Stopped,
    StopFailed(Seq<char>),
    Removed,
    RemoveFailed(Seq<char>),
}

impl View for TeardownEvent {
    type V = TeardownEventView;

    open spec fn view(&self) -> TeardownEventView {
        match self {
            TeardownEvent::Started => TeardownEventView::Started,
            TeardownEvent::Stopped => TeardownEventView::Stopped,
            TeardownEvent::StopFailed(reason) => TeardownEventView::StopFailed(reason@),
            TeardownEvent::Removed => TeardownEventView::Removed,
            TeardownEvent::RemoveFailed(reason) => TeardownEventView::RemoveFailed(reason@),
        }
    }
}

/// What a tear-down asks its caller to do next.
#[derive(Debug, PartialEq, Eq)]
pub enum TeardownAction {
    /// Stop this container, then report `Stopped` or `StopFailed`.
    StopContainer(String),
    /// Remove this container, by force where `force` is set, then report
    /// `Removed` or `RemoveFailed`.
    RemoveContainer { container_id: String, force: bool },
    /// The tear-down is over, with this result.
    Done(Result<(), EngineError>),
}

/// The mathematical model of a [`TeardownAction`].
pub enum TeardownActionView {
    StopContainer(Seq<char>),
    RemoveContainer { container_id: Seq<char>, force: bool },
    Done(Result<(), ErrorView>),
}

impl View for TeardownAction {
    type V = TeardownActionView;

    open spec fn view(&self) -> TeardownActionView {
        match self {
            TeardownAction::StopContainer(id) => TeardownActionView::StopContainer(id@),
            TeardownAction::RemoveContainer { container_id, force } => TeardownActionView::RemoveContainer {
                container_id: container_id@,
                force: *force,
            },
            TeardownAction::Done(Ok(())) => TeardownActionView::Done(Ok(())),
            TeardownAction::Done(Err(error)) => TeardownActionView::Done(Err(error@)),
        }
    }
}

/// What the tear-down of a removed session does on an event.
///
/// A session without a container needs none: the tear-down is over at
/// once, and well. A container is first stopped. Whether that succeeded
/// does not matter, since the container may have stopped before: it is
/// then removed by force. A removal that fails is the failure of the
/// tear-down, with the reason that the runtime gave.
pub open spec fn teardown_next(container: Option<Seq<char>>, event: TeardownEventView) -> TeardownActionView {
    match container {
        None => TeardownActionView::Done(Ok(())),
        Some(container_id) => match event {
            TeardownEventView::Started => TeardownActionView::StopContainer(container_id),
            TeardownEventView::Stopped | TeardownEventView::StopFailed(_) => TeardownActionView::RemoveContainer {
                container_id,
                force: true,
            },
            TeardownEventView::Removed => TeardownActionView::Done(Ok(())),
            TeardownEventView::RemoveFailed(reason) => TeardownActionView::Done(
                Err(RuntimeCall::RemoveContainer.failure(reason)),
            ),
        },
    }
}

/// How the provisioning of a sandbox ended: with the handle of the container
/// and the two host ports bound to it, or with a failure.
#[derive(Debug, PartialEq, Eq)]
pub enum Provisioning {
    Ready { container_id: String, ssh_port: u16, web_port: u16 },
    Failed(EngineError),
}

/// The mathematical model of a [`Provisioning`].
pub enum ProvisioningView {
    Ready { container_id: Seq<char>, ssh_port: u16, web_port: u16 },
    Failed(ErrorView),
}

impl View for Provisioning {
    type V = ProvisioningView;

    open spec fn view(&self) -> ProvisioningView {
        match self {
            Provisioning::Ready { container_id, ssh_port, web_port } => ProvisioningView::Ready {
                container_id: container_id@,
                ssh_port: *ssh_port,
                web_port: *web_port,
            },
            Provisioning::Failed(error) => ProvisioningView::Failed(error@),
        }
    }
}

/// The session `s` once its provisioning has ended in `outcome`.
pub open spec fn provisioned(s: SessionView, outcome: ProvisioningView) -> SessionView {
    match outcome {
        ProvisioningView::Ready { container_id, ssh_port, web_port } => SessionView {
            container_id: Some(container_id),
            ssh_port: Some(ssh_port),
            web_port: Some(web_port),
            status: StatusView::Running,
            ..s
        },
        ProvisioningView::Failed(error) => SessionView {
            status: StatusView::Error(error.message()),
            ..s
        },
    }
}

/// Whether at `now` a session has been idle for longer than the threshold
/// allows: the time since its last activity, to the nanosecond, exceeds
/// `max_idle_minutes` minutes. A session idle for exactly that long is not
/// stale. Under a negative threshold a session is stale unless its last
/// activity lies that many minutes or more after `now`.
pub open spec fn is_stale(s: SessionView, now: Timestamp, max_idle_minutes: i64) -> bool {
    now.nanos_since_epoch() - s.last_activity.nanos_since_epoch() > max_idle_minutes
        * NANOS_PER_MINUTE
}

/// The registry after a sweep at `now`: the sessions that are not stale, as
/// they were.
pub open spec fn swept(
    sessions: Map<Seq<char>, SessionView>,
    now: Timestamp,
    max_idle_minutes: i64,
) -> Map<Seq<char>, SessionView> {
    Map::new(
        |id: Seq<char>| sessions.contains_key(id) && !is_stale(sessions[id], now, max_idle_minutes),
        |id: Seq<char>| sessions[id],
    )
}

/// Whether a sweep at `now` leads from the registry `before` to the registry
/// `after` and removes the sessions `removed`: the registry keeps exactly
/// the sessions that are not stale, as they were, and the stale ones are
/// removed, each once.
pub open spec fn is_sweep(
    before: Map<Seq<char>, SessionView>,
    after: Map<Seq<char>, SessionView>,
    removed: Seq<SessionView>,
    now: Timestamp,
    max_idle_minutes: i64,
) -> bool {
    &&& after == swept(before, now, max_idle_minutes)
    &&& forall|i: int|
        0 <= i < removed.len() ==> {
            &&& before.contains_key(#[trigger] removed[i].id)
            &&& removed[i] == before[removed[i].id]
            &&& is_stale(removed[i], now, max_idle_minutes)
        }
    &&& forall|id: Seq<char>| #[trigger]
        before.contains_key(id) && is_stale(before[id], now, max_idle_minutes) ==> exists|i: int|
            0 <= i < removed.len() && #[trigger] removed[i].id == id
    &&& forall|i: int, j: int|
        0 <= i < j < removed.len() ==> #[trigger] removed[i].id != #[trigger] removed[j].id
}

/// The characters of each text of a list.
pub open spec fn texts(list: Seq<String>) -> Seq<Seq<char>> {
    Seq::new(list.len(), |i: int| list[i]@)
}

/// The model of each session of a list.
pub open spec fn session_views(list: Seq<VmSession>) -> Seq<SessionView> {
    Seq::new(list.len(), |i: int| list[i]@)
}

/// The registry after the sessions with the ids listed were visited in
/// turn, and each one found stale was removed.
pub open spec fn swept_over(
    sessions: Map<Seq<char>, SessionView>,
    now: Timestamp,
    max_idle_minutes: i64,
    ids: Seq<Seq<char>>,
) -> Map<Seq<char>, SessionView>
    decreases ids.len(),
{
    if ids.len() == 0 {
        sessions
    } else {
        let so_far = swept_over(sessions, now, max_idle_minutes, ids.drop_last());
        let id = ids.last();
        if so_far.contains_key(id) && is_stale(so_far[id], now, max_idle_minutes) {
            so_far.remove(id)
        } else {
            so_far
        }
    }
}

/// The sessions removed while the sessions with the ids listed were visited
/// in turn, in the order of their removal.
pub open spec fn removed_over(
    sessions: Map<Seq<char>, SessionView>,
    now: Timestamp,
    max_idle_minutes: i64,
    ids: Seq<Seq<char>>,
) -> Seq<SessionView>
    decreases ids.len(),
{
    if ids.len() == 0 {
        Seq::empty()
    } else {
        let so_far = swept_over(sessions, now, max_idle_minutes, ids.drop_last());
        let earlier = removed_over(sessions, now, max_idle_minutes, ids.drop_last());
        let id = ids.last();
        if so_far.contains_key(id) && is_stale(so_far[id], now, max_idle_minutes) {
            earlier.push(so_far[id])
        } else {
            earlier
        }
    }
}

/// What a sweep over the ids listed leaves: the sessions that are not both
/// stale and listed, as they were.
pub proof fn lemma_swept_over(
    sessions: Map<Seq<char>, SessionView>,
    now: Timestamp,
    max_idle_minutes: i64,
    ids: Seq<Seq<char>>,
)
    ensures
        forall|id: Seq<char>| #[trigger]
            swept_over(sessions, now, max_idle_minutes, ids).contains_key(id) <==> (
            sessions.contains_key(id) && !(is_stale(sessions[id], now, max_idle_minutes)
                && ids.contains(id))),
        forall|id: Seq<char>| #[trigger]
            swept_over(sessions, now, max_idle_minutes, ids).contains_key(id) ==> swept_over(
                sessions,
                now,
                max_idle_minutes,
                ids,
            )[id] == sessions[id],
    decreases ids.len(),
{
    if ids.len() > 0 {
        let prev = ids.drop_last();
        lemma_swept_over(sessions, now, max_idle_minutes, prev);
        let so_far = swept_over(sessions, now, max_idle_minutes, prev);
        let after = swept_over(sessions, now, max_idle_minutes, ids);
        assert forall|id: Seq<char>| #[trigger]
            after.contains_key(id) <==> (sessions.contains_key(id) && !(is_stale(
                sessions[id],
                now,
                max_idle_minutes,
            ) && ids.contains(id))) by {
            assert(so_far.contains_key(id) <==> (sessions.contains_key(id) && !(is_stale(
                sessions[id],
                now,
                max_idle_minutes,
            ) && prev.contains(id))));
            if prev.contains(id) {
                let k = choose|k: int| 0 <= k < prev.len() && prev[k] == id;
                assert(ids[k] == id);
            }
            if ids.contains(id) && id != ids.last() {
                let k = choose|k: int| 0 <= k < ids.len() && ids[k] == id;
                assert(prev[k] == id);
            }
            assert(ids[ids.len() - 1] == ids.last());
        }
    }
}

/// What a sweep over the ids listed removes: stale sessions of the
/// registry, under ids that are listed, none twice, and every stale session
/// whose id is listed.
pub proof fn lemma_removed_over(
    sessions: Map<Seq<char>, SessionView>,
    now: Timestamp,
    max_idle_minutes: i64,
    ids: Seq<Seq<char>>,
)
    requires
        registry_wf(sessions),
    ensures
        forall|r: int|
            0 <= r < removed_over(sessions, now, max_idle_minutes, ids).len() ==> {
                let gone = #[trigger] removed_over(sessions, now, max_idle_minutes, ids)[r];
                &&& sessions.contains_key(gone.id)
                &&& gone == sessions[gone.id]
                &&& is_stale(gone, now, max_idle_minutes)
                &&& ids.contains(gone.id)
            },
        forall|id: Seq<char>|
            sessions.contains_key(id) && is_stale(sessions[id], now, max_idle_minutes)
                && #[trigger] ids.contains(id) ==> exists|r: int|
                0 <= r < removed_over(sessions, now, max_idle_minutes, ids).len()
                    && (#[trigger] removed_over(sessions, now, max_idle_minutes, ids)[r]).id == id,
        forall|a: int, b: int|
            0 <= a < b < removed_over(sessions, now, max_idle_minutes, ids).len() ==> (
            #[trigger] removed_over(sessions, now, max_idle_minutes, ids)[a]).id != (
            #[trigger] removed_over(sessions, now, max_idle_minutes, ids)[b]).id,
    decreases ids.len(),
{
    if ids.len() > 0 {
        let prev = ids.drop_last();
        let last = ids.last();
        lemma_removed_over(sessions, now, max_idle_minutes, prev);
        lemma_swept_over(sessions, now, max_idle_minutes, prev);
        let so_far = swept_over(sessions, now, max_idle_minutes, prev);
        let earlier = removed_over(sessions, now, max_idle_minutes, prev);
        let all = removed_over(sessions, now, max_idle_minutes, ids);
        let takes = so_far.contains_key(last) && is_stale(so_far[last], now, max_idle_minutes);
        assert(ids[ids.len() - 1] == last);
        assert forall|id: Seq<char>| prev.contains(id) implies ids.contains(id) by {
            let k = choose|k: int| 0 <= k < prev.len() && prev[k] == id;
            assert(ids[k] == id);
        }
        assert forall|r: int| 0 <= r < all.len() implies {
            let gone = #[trigger] all[r];
            &&& sessions.contains_key(gone.id)
            &&& gone == sessions[gone.id]
            &&& is_stale(gone, now, max_idle_minutes)
            &&& ids.contains(gone.id)
        } by {
            if r < earlier.len() {
                assert(all[r] == earlier[r]);
                assert(prev.contains(earlier[r].id));
            } else {
                assert(all[r] == so_far[last]);
                assert(so_far[last] == sessions[last]);
                assert(sessions[last].id == last);
            }
        }
        assert forall|id: Seq<char>|
            sessions.contains_key(id) && is_stale(sessions[id], now, max_idle_minutes)
                && #[trigger] ids.contains(id) implies exists|r: int|
            0 <= r < all.len() && (#[trigger] all[r]).id == id by {
            if prev.contains(id) {
                let r = choose|r: int| 0 <= r < earlier.len() && (#[trigger] earlier[r]).id == id;
                assert(all[r] == earlier[r]);
            } else {
                let k = choose|k: int| 0 <= k < ids.len() && ids[k] == id;
                if k < prev.len() {
                    assert(prev[k] == id);
                }
                assert(id == last);
                assert(so_far.contains_key(last));
                assert(takes);
                assert(all[earlier.len() as int] == so_far[last]);
                assert(sessions[last].id == last);
            }
        }
        assert forall|a: int, b: int| 0 <= a < b < all.len() implies (#[trigger] all[a]).id != (
        #[trigger] all[b]).id by {
            if b < earlier.len() {
                assert(all[a] == earlier[a] && all[b] == earlier[b]);
            } else {
                assert(all[a] == earlier[a]);
                assert(prev.contains(earlier[a].id));
                assert(is_stale(sessions[earlier[a].id], now, max_idle_minutes));
                assert(!so_far.contains_key(earlier[a].id));
                assert(all[b] == so_far[last]);
                assert(sessions[last].id == last);
            }
        }
    }
}

impl DockerVmManager {
    /// Creates a session for a challenge, under the id given and with `now`
    /// as the time of its creation. An unknown challenge is refused before
    /// anything is done. Otherwise the session is registered as `Starting`,
    /// without sandbox, and returned at once: provisioning is the caller's to
    /// start, and its end is recorded by `complete_provisioning`.
    pub fn create_vm_session_at(
        state: &mut AppState,
        challenge_id: &str,
        session_id: String,
        now: Timestamp,
    ) -> (created: Result<VmSession, EngineError>)
        ensures
            registry_wf(final(state).sessions@),
            match created {
                Ok(session) => {
                    &&& catalog_entry(challenge_id@) is Some
                    &&& session@ == SessionView::fresh(session_id@, challenge_id@, now)
                    &&& final(state).sessions@ == old(state).sessions@.insert(
                        session_id@,
                        session@,
                    )
                },
                Err(error) => {
                    &&& catalog_entry(challenge_id@) is None
                    &&& error@ == ErrorView::UnknownChallenge(challenge_id@)
                    &&& final(state).sessions@ == old(state).sessions@
                },
            },
    {
        let known = ChallengeConfig::get_challenge(challenge_id);
        if known.is_none() {
            state.sessions.attest();
            return Err(EngineError::UnknownChallenge(String::from_str(challenge_id)));
        }
        let session = VmSession {
            id: session_id,
            challenge_id: String::from_str(challenge_id),
            container_id: None,
            status: VmStatus::Starting,
            created_at: now,
            last_activity: now,
            ssh_port: None,
            web_port: None,
            current_directory: String::from_str("/home/hacker"),
        };
        let snapshot = session.clone();
        state.sessions.put(session);
        Ok(snapshot)
    }

    /// Creates a session for a challenge under a fresh random id, at the
    /// present time. What holds of `create_vm_session_at` holds here for
    /// the id that came, and for the time that the clock gave, which is a
    /// time no earlier than the Unix epoch.
    pub fn create_vm_session(state: &mut AppState, challenge_id: &str) -> (created: Result<
        VmSession,
        EngineError,
    >)
        ensures
            registry_wf(final(state).sessions@),
            match created {
                Ok(session) => {
                    &&& catalog_entry(challenge_id@) is Some
                    &&& is_session_id(session@.id)
                    &&& session@.created_at.is_clock_reading()
                    &&& session@ == SessionView::fresh(
                        session@.id,
                        challenge_id@,
                        session@.created_at,
                    )
                    &&& final(state).sessions@ == old(state).sessions@.insert(
                        session@.id,
                        session@,
                    )
                },
                Err(error) => {
                    &&& catalog_entry(challenge_id@) is None
                    &&& error@ == ErrorView::UnknownChallenge(challenge_id@)
                    &&& final(state).sessions@ == old(state).sessions@
                },
            },
    {
        let id = fresh_session_id();
        let now = current_time();
        Self::create_vm_session_at(state, challenge_id, id, now)
    }

    /// Records how the provisioning of a session ended. A session that is
    /// still `Starting` becomes `Running`, with its container and ports, or
    /// `Error`, with the text of the failure; `true` is returned. A session
    /// that is gone or no longer `Starting` is left as it is, and `false`
    /// is returned.
    pub fn complete_provisioning(state: &mut AppState, session_id: &str, outcome: Provisioning) -> (applied:
        bool)
        ensures
            registry_wf(final(state).sessions@),
            applied == (old(state).sessions@.contains_key(session_id@) && old(
                state,
            ).sessions@[session_id@].status is Starting),
            applied ==> final(state).sessions@ == old(state).sessions@.insert(
                session_id@,
                provisioned(old(state).sessions@[session_id@], outcome@),
            ),
            !applied ==> final(state).sessions@ == old(state).sessions@,
    {
        let found = state.sessions.get(session_id);
        match found {
            Some(mut session) => {
                match session.status {
                    VmStatus::Starting => {
                        match outcome {
                            Provisioning::Ready { container_id, ssh_port, web_port } => {
                                session.container_id = Some(container_id);
                                session.ssh_port = Some(ssh_port);
                                session.web_port = Some(web_port);
                                session.status = VmStatus::Running;
                            },
                            Provisioning::Failed(error) => {
                                session.status = VmStatus::Error(error.message());
                            },
                        }
                        state.sessions.put(session);
                        true
                    },
                    _ => false,
                }
            },
            None => false,
        }
    }

    /// The session with this id, as the registry holds it now.
    pub fn get_session(state: &AppState, session_id: &str) -> (found: Result<VmSession, EngineError>)
        ensures
            registry_wf(state.sessions@),
            match found {
                Ok(session) => state.sessions@.contains_key(session_id@) && session@
                    == state.sessions@[session_id@],
                Err(error) => !state.sessions@.contains_key(session_id@) && error@
                    == ErrorView::SessionNotFound(session_id@),
            },
    {
        match state.sessions.get(session_id) {
            Some(session) => Ok(session),
            None => Err(EngineError::SessionNotFound(String::from_str(session_id))),
        }
    }

    /// The sessions that the registry holds now, each once, in no stated
    /// order.
    pub fn list_sessions(state: &AppState) -> (sessions: Vec<VmSession>)
        ensures
            registry_wf(state.sessions@),
            forall|i: int|
                0 <= i < sessions@.len() ==> state.sessions@.contains_key(
                    #[trigger] sessions@[i]@.id,
                ) && sessions@[i]@ == state.sessions@[sessions@[i]@.id],
            forall|id: Seq<char>| #[trigger]
                state.sessions@.contains_key(id) ==> exists|i: int|
                    0 <= i < sessions@.len() && #[trigger] sessions@[i]@.id == id,
            forall|i: int, j: int|
                0 <= i < j < sessions@.len() ==> #[trigger] sessions@[i]@.id
                    != #[trigger] sessions@[j]@.id,
    {
        let ids = state.sessions.ids();
        let mut sessions: Vec<VmSession> = Vec::new();
        let mut i: usize = 0;
        while i < ids.len()
            invariant
                i <= ids.len(),
                registry_wf(state.sessions@),
                forall|k: int| 0 <= k < ids@.len() ==> state.sessions@.contains_key(#[trigger] ids@[k]@),
                sessions@.len() == i,
                forall|k: int|
                    0 <= k < i ==> (#[trigger] sessions@[k])@ == state.sessions@[ids@[k]@],
            decreases ids.len() - i,
        {
            match state.sessions.get(ids[i].as_str()) {
                Some(session) => {
                    sessions.push(session);
                },
                None => {
                    assert(false);
                },
            }
            i += 1;
        }
        proof {
            assert forall|k: int| 0 <= k < sessions@.len() implies sessions@[k]@.id == ids@[k]@ by {
                assert(state.sessions@.contains_key(ids@[k]@));
            }
            assert forall|id: Seq<char>| #[trigger]
                state.sessions@.contains_key(id) implies exists|k: int|
                0 <= k < sessions@.len() && #[trigger] sessions@[k]@.id == id by {
                let k = choose|k: int| 0 <= k < ids@.len() && #[trigger] ids@[k]@ == id;
                assert(sessions@[k]@.id == id);
            }
        }
        sessions
    }

    /// Removes a session from the registry. Returns the handle of its
    /// container, if it has one: the caller stops that container, ignoring a
    /// failure, and then removes it by force.
    pub fn destroy_session(state: &mut AppState, session_id: &str) -> (destroyed: Result<
        Option<String>,
        EngineError,
    >)
        ensures
            registry_wf(final(state).sessions@),
            final(state).sessions@ == old(state).sessions@.remove(session_id@),
            match destroyed {
                Ok(container) => old(state).sessions@.contains_key(session_id@)
                    && crate::session::text_of(container) == old(
                    state,
                ).sessions@[session_id@].container_id,
                Err(error) => !old(state).sessions@.contains_key(session_id@) && error@
                    == ErrorView::SessionNotFound(session_id@),
            },
    {
        let removed = state.sessions.remove(session_id);
        match removed {
            Some(session) => Ok(session.container_id),
            None => Err(EngineError::SessionNotFound(String::from_str(session_id))),
        }
    }

    /// Decides what the tear-down of a removed session does on an event,
    /// for the container that the session held, if it held one.
    pub fn tear_down(container: &Option<String>, event: TeardownEvent) -> (action: TeardownAction)
        ensures
            action@ == teardown_next(text_of(*container), event@),
    {
        match container {
            None => TeardownAction::Done(Ok(())),
            Some(container_id) => match event {
                TeardownEvent::Started => TeardownAction::StopContainer(container_id.clone()),
                TeardownEvent::Stopped | TeardownEvent::StopFailed(_) => TeardownAction::RemoveContainer {
                    container_id: container_id.clone(),
                    force: true,
                },
                TeardownEvent::Removed => TeardownAction::Done(Ok(())),
                TeardownEvent::RemoveFailed(reason) => TeardownAction::Done(
                    Err(RuntimeCall::RemoveContainer.failed(reason.as_str())),
                ),
            },
        }
    }

    /// Removes the session with this id if at `now` it has been idle for
    /// longer than `max_idle_minutes` minutes, and returns it.
    fn remove_if_stale(state: &mut AppState, id: &str, max_idle_minutes: i64, now: Timestamp) -> (removed:
        Option<VmSession>)
        ensures
            match removed {
                Some(session) => {
                    &&& old(state).sessions@.contains_key(id@)
                    &&& is_stale(old(state).sessions@[id@], now, max_idle_minutes)
                    &&& session@ == old(state).sessions@[id@]
                    &&& final(state).sessions@ == old(state).sessions@.remove(id@)
                },
                None => {
                    &&& !(old(state).sessions@.contains_key(id@) && is_stale(
                        old(state).sessions@[id@],
                        now,
                        max_idle_minutes,
                    ))
                    &&& final(state).sessions@ == old(state).sessions@
                },
            },
    {
        let stale = match state.sessions.get(id) {
            Some(session) => now.is_later_by_more_than(&session.last_activity, max_idle_minutes),
            None => false,
        };
        if stale {
            state.sessions.remove(id)
        } else {
            None
        }
    }

    /// Removes the sessions that at `now` have been idle for longer than
    /// `max_idle_minutes` minutes, by the exact time since their last
    /// activity, and returns them, each once, so that the caller can tear
    /// their containers down. All other sessions stay as they are.
    pub fn cleanup_inactive_sessions_at(state: &mut AppState, max_idle_minutes: i64, now: Timestamp) -> (removed:
        Vec<VmSession>)
        ensures
            registry_wf(final(state).sessions@),
            is_sweep(
                old(state).sessions@,
                final(state).sessions@,
                session_views(removed@),
                now,
                max_idle_minutes,
            ),
    {
        let ghost before = state.sessions@;
        let ids = state.sessions.ids();
        let mut removed: Vec<VmSession> = Vec::new();
        let mut i: usize = 0;
        proof {
            assert(session_views(removed@) =~= removed_over(
                before,
                now,
                max_idle_minutes,
                texts(ids@).take(0),
            ));
        }
        while i < ids.len()
            invariant
                i <= ids.len(),
                state.sessions@ == swept_over(
                    before,
                    now,
                    max_idle_minutes,
                    texts(ids@).take(i as int),
                ),
                session_views(removed@) == removed_over(
                    before,
                    now,
                    max_idle_minutes,
                    texts(ids@).take(i as int),
                ),
            decreases ids.len() - i,
        {
            let ghost earlier = session_views(removed@);
            proof {
                let next = texts(ids@).take(i + 1);
                assert(next.drop_last() =~= texts(ids@).take(i as int));
                assert(next.last() == ids@[i as int]@);
            }
            match Self::remove_if_stale(state, ids[i].as_str(), max_idle_minutes, now) {
                Some(session) => {
                    removed.push(session);
                    proof {
                        assert(session_views(removed@) =~= earlier.push(session@));
                    }
                },
                None => {},
            }
            i += 1;
        }
        proof {
            let all = texts(ids@);
            assert(all.take(all.len() as int) =~= all);
            lemma_swept_over(before, now, max_idle_minutes, all);
            lemma_removed_over(before, now, max_idle_minutes, all);
            assert forall|id: Seq<char>| before.contains_key(id) implies all.contains(id) by {
                let k = choose|k: int| 0 <= k < ids@.len() && #[trigger] ids@[k]@ == id;
                assert(all[k] == id);
            }
            assert(state.sessions@ =~= swept(before, now, max_idle_minutes));
            let gone = removed_over(before, now, max_idle_minutes, all);
            assert(session_views(removed@) == gone);
            assert forall|id: Seq<char>| #[trigger]
                before.contains_key(id) && is_stale(
                    before[id],
                    now,
                    max_idle_minutes,
                ) implies exists|r: int| 0 <= r < gone.len() && #[trigger] gone[r].id == id by {
                assert(all.contains(id));
            }
        }
        state.sessions.attest();
        removed
    }

    /// Sweeps the idle sessions at the present time. What holds of
    /// `cleanup_inactive_sessions_at` holds here for the time that the
    /// clock gave, which is a time no earlier than the Unix epoch.
    pub fn cleanup_inactive_sessions(state: &mut AppState, max_idle_minutes: i64) -> (removed: Vec<
        VmSession,
    >)
        ensures
            registry_wf(final(state).sessions@),
            exists|now: Timestamp|
                now.is_clock_reading() && #[trigger] is_sweep(
                    old(state).sessions@,
                    final(state).sessions@,
                    session_views(removed@),
                    now,
                    max_idle_minutes,
                ),
    {
        let now = current_time();
        Self::cleanup_inactive_sessions_at(state, max_idle_minutes, now)
    }
}

} // verus!
