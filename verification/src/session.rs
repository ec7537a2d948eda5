//! The session record, its status, and the timestamps it carries.

use vstd::prelude::*;

verus! {

/// Nanoseconds in a minute.
pub const NANOS_PER_MINUTE: i128 = 60_000_000_000;

/// Nanoseconds in a millisecond.
pub const NANOS_PER_MILLI: i128 = 1_000_000;

/// A point in time: whole seconds since the Unix epoch, and the nanoseconds
/// past that second.
#[derive(Clone, Copy, Debug, PartialEq, Eq, Structural)]
pub struct Timestamp {
    pub secs: i64,
    pub nanos: u32,
}

impl Timestamp {
    /// Nanoseconds since the Unix epoch.
    pub open spec fn nanos_since_epoch(self) -> int {
        self.secs * 1_000_000_000 + self.nanos
    }

    /// Whether the point is one that a clock gives: not before the Unix
    /// epoch, and with less than a second of nanoseconds.
    pub open spec fn is_clock_reading(self) -> bool {
        self.secs >= 0 && self.nanos < 1_000_000_000
    }

    /// Whether more than `minutes` minutes lie from `earlier` to `self`, by
    /// the exact difference of the two: no part of a minute is dropped.
    pub open spec fn spec_is_later_by_more_than(self, earlier: Timestamp, minutes: i64) -> bool {
        self.nanos_since_epoch() - earlier.nanos_since_epoch() > minutes * NANOS_PER_MINUTE
    }

    /// Whole milliseconds from `earlier` to `self`; zero when `earlier` is
    /// not before `self`, and `u64::MAX` when the count does not fit.
    pub open spec fn spec_millis_since(self, earlier: Timestamp) -> int {
        let elapsed = self.nanos_since_epoch() - earlier.nanos_since_epoch();
        if elapsed <= 0 {
            0
        } else if elapsed / (NANOS_PER_MILLI as int) > u64::MAX {
            u64::MAX as int
        } else {
            elapsed / (NANOS_PER_MILLI as int)
        }
    }

    /// Signed nanoseconds from `earlier` to `self`.
    fn nanos_since(&self, earlier: &Timestamp) -> (elapsed: i128)
        ensures
            elapsed == self.nanos_since_epoch() - earlier.nanos_since_epoch(),
    {
        let secs: i128 = self.secs as i128 - earlier.secs as i128;
        let nanos: i128 = self.nanos as i128 - earlier.nanos as i128;
        assert(-0x1_0000_0000_0000_0000 <= secs <= 0x1_0000_0000_0000_0000);
        assert(secs * 1_000_000_000 <= 0x1_0000_0000_0000_0000 * 1_000_000_000
            && secs * 1_000_000_000 >= -0x1_0000_0000_0000_0000 * 1_000_000_000)
            by (nonlinear_arith)
            requires
                -0x1_0000_0000_0000_0000 <= secs <= 0x1_0000_0000_0000_0000,
        ;
        secs * 1_000_000_000 + nanos
    }

    /// Tells whether more than `minutes` minutes lie from `earlier` to
    /// `self`. The difference is compared to the nanosecond.
    pub fn is_later_by_more_than(&self, earlier: &Timestamp, minutes: i64) -> (later: bool)
        ensures
            later == self.spec_is_later_by_more_than(*earlier, minutes),
    {
        let elapsed = self.nanos_since(earlier);
        let limit: i128 = minutes as i128 * NANOS_PER_MINUTE;
        elapsed > limit
    }

    /// Whole milliseconds elapsed from `earlier` to `self`, zero when none
    /// has elapsed, capped at `u64::MAX`.
    pub fn millis_since(&self, earlier: &Timestamp) -> (millis: u64)
        ensures
            millis == self.spec_millis_since(*earlier),
    {
        let elapsed = self.nanos_since(earlier);
        if elapsed <= 0 {
            0
        } else {
            let millis: i128 = elapsed / NANOS_PER_MILLI;
            if millis > u64::MAX as i128 {
                u64::MAX
            } else {
                millis as u64
            }
        }
    }
}

/// Where a session stands in its life.
#[derive(Debug, PartialEq, Eq)]
pub enum VmStatus {
    /// Created; its sandbox is being provisioned.
    Starting,
    /// Its sandbox runs and takes commands.
    Running,
    /// Its sandbox was stopped.
    Stopped,
    /// Provisioning failed, with the reason.
    Error(String),
}

/// The mathematical model of a [`VmStatus`].
pub enum StatusView {
    Starting,
    Running,
    Stopped,
    Error(Seq<char>),
}

impl View for VmStatus {
    type V = StatusView;

    open spec fn view(&self) -> StatusView {
        match self {
            VmStatus::Starting => StatusView::Starting,
            VmStatus::Running => StatusView::Running,
            VmStatus::Stopped => StatusView::Stopped,
            VmStatus::Error(reason) => StatusView::Error(reason@),
        }
    }
}

impl Clone for VmStatus {
    fn clone(&self) -> (copy: Self)
        ensures
            copy@ == self@,
    {
        match self {
            VmStatus::Starting => VmStatus::Starting,
            VmStatus::Running => VmStatus::Running,
            VmStatus::Stopped => VmStatus::Stopped,
            VmStatus::Error(reason) => VmStatus::Error(reason.clone()),
        }
    }
}

impl StatusView {
    /// A status that no later event changes.
    pub open spec fn is_terminal(self) -> bool {
        self is Stopped || self is Error
    }

    /// Whether a session in status `self` may next be found in status
    /// `next`: a status stays, or `Starting` gives way to `Running` or to
    /// `Error`.
    pub open spec fn may_become(self, next: StatusView) -> bool {
        next == self || (self is Starting && (next is Running || next is Error))
    }
}

/// One learner's session: the record that binds an interaction to a sandbox.
#[derive(Debug, PartialEq, Eq)]
pub struct VmSession {
    pub id: String,
    pub challenge_id: String,
    pub container_id: Option<String>,
    pub status: VmStatus,
    pub created_at: Timestamp,
    pub last_activity: Timestamp,
    pub ssh_port: Option<u16>,
    pub web_port: Option<u16>,
    pub current_directory: String,
}

/// The mathematical model of a [`VmSession`].
pub struct SessionView {
    pub id: Seq<char>,
    pub challenge_id: Seq<char>,
    pub container_id: Option<Seq<char>>,
    pub status: StatusView,
    pub created_at: Timestamp,
    pub last_activity: Timestamp,
    pub ssh_port: Option<u16>,
    pub web_port: Option<u16>,
    pub current_directory: Seq<char>,
}

/// The characters of an optional text.
pub open spec fn text_of(text: Option<String>) -> Option<Seq<char>> {
    match text {
        Some(t) => Some(t@),
        None => None,
    }
}

impl View for VmSession {
    type V = SessionView;

    open spec fn view(&self) -> SessionView {
        SessionView {
            id: self.id@,
            challenge_id: self.challenge_id@,
            container_id: text_of(self.container_id),
            status: self.status@,
            created_at: self.created_at,
            last_activity: self.last_activity,
            ssh_port: self.ssh_port,
            web_port: self.web_port,
            current_directory: self.current_directory@,
        }
    }
}

impl SessionView {
    /// The invariant of a session: it holds a sandbox handle and a pair of
    /// host ports exactly while it is `Running`.
    pub open spec fn wf(self) -> bool {
        &&& self.container_id is Some <==> self.status is Running
        &&& self.ssh_port is Some <==> self.status is Running
        &&& self.web_port is Some <==> self.status is Running
    }

    /// The session as `create` makes it: `Starting`, without sandbox, in the
    /// home directory, created and last active at `now`.
    pub open spec fn fresh(id: Seq<char>, challenge_id: Seq<char>, now: Timestamp) -> SessionView {
        SessionView {
            id,
            challenge_id,
            container_id: None,
            status: StatusView::Starting,
            created_at: now,
            last_activity: now,
            ssh_port: None,
            web_port: None,
            current_directory: crate::paths::home_directory(),
        }
    }
}

/// Copies an optional text.
pub fn clone_text(text: &Option<String>) -> (copy: Option<String>)
    ensures
        text_of(copy) == text_of(*text),
{
    match text {
        Some(t) => Some(t.clone()),
        None => None,
    }
}

impl VmSession {
    /// Tells whether the session meets the invariant of a session.
    pub fn is_well_formed(&self) -> (well_formed: bool)
        ensures
            well_formed == self@.wf(),
    {
        let running = match self.status {
            VmStatus::Running => true,
            _ => false,
        };
        self.container_id.is_some() == running && self.ssh_port.is_some() == running
            && self.web_port.is_some() == running
    }
}

impl Clone for VmSession {
    fn clone(&self) -> (copy: Self)
        ensures
            copy@ == self@,
    {
        VmSession {
            id: self.id.clone(),
            challenge_id: self.challenge_id.clone(),
            container_id: clone_text(&self.container_id),
            status: self.status.clone(),
            created_at: self.created_at,
            last_activity: self.last_activity,
            ssh_port: self.ssh_port,
            web_port: self.web_port,
            current_directory: self.current_directory.clone(),
        }
    }
}

/// What running one command gave.
#[derive(Clone, Debug, PartialEq, Eq)]
pub struct CommandExecution {
    pub session_id: String,
    pub command: String,
    pub output: String,
    pub exit_code: i32,
    pub duration_ms: u64,
    pub timestamp: Timestamp,
}

/// The mathematical model of a [`CommandExecution`].
pub struct ExecutionView {
    pub session_id: Seq<char>,
    pub command: Seq<char>,
    pub output: Seq<char>,
    pub exit_code: i32,
    pub duration_ms: u64,
    pub timestamp: Timestamp,
}

impl View for CommandExecution {
    type V = ExecutionView;

    open spec fn view(&self) -> ExecutionView {
        ExecutionView {
            session_id: self.session_id@,
            command: self.command@,
            output: self.output@,
            exit_code: self.exit_code,
            duration_ms: self.duration_ms,
            timestamp: self.timestamp,
        }
    }
}

} // verus!
