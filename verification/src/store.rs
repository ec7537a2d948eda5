//! The session registry: a concurrent map from session id to session
//! record, and the state that the engine works on.

use crate::session::{SessionView, VmSession};
use dashmap::DashMap;
use std::collections::hash_map::RandomState;
use vstd::prelude::*;

verus! {

/// The concurrent hash map of the `dashmap` crate, used as it is. The
/// registry owns its map and changes it through exclusive references only,
/// so that what the map holds is a function of the map.
#[verifier::external_type_specification]
#[verifier::external_body]
#[verifier::reject_recursive_types(K)]
#[verifier::reject_recursive_types(V)]
#[verifier::reject_recursive_types(S)]
pub struct ExDashMap<K, V, S>(DashMap<K, V, S>);

/// What a session map holds: the model of each stored session, by the
/// characters of its key.
pub uninterp spec fn stored_sessions(map: DashMap<String, VmSession, RandomState>) -> Map<
    Seq<char>,
    SessionView,
>;

/// The registry that holds no session.
pub open spec fn empty_registry() -> Map<Seq<char>, SessionView> {
    Map::empty()
}

/// Calls `DashMap::new`: a map that holds nothing.
#[verifier::external_body]
pub(crate) fn map_new() -> (fresh: DashMap<String, VmSession, RandomState>)
    ensures
        stored_sessions(fresh) == empty_registry(),
{
    DashMap::new()
}

/// Calls `DashMap::insert`: the value is stored under the key, in place of
/// what the key held, and what it held is returned. The call is taken not
/// to unwind.
#[verifier::external_body]
pub(crate) fn map_insert(
    map: &mut DashMap<String, VmSession, RandomState>,
    key: String,
    value: VmSession,
) -> (previous: Option<VmSession>)
    ensures
        stored_sessions(*final(map)) == stored_sessions(*old(map)).insert(key@, value@),
        match previous {
            Some(p) => stored_sessions(*old(map)).contains_key(key@) && p@ == stored_sessions(
                *old(map),
            )[key@],
            None => !stored_sessions(*old(map)).contains_key(key@),
        },
    no_unwind
{
    map.insert(key, value)
}

/// Calls `DashMap::remove`: the entry of the key leaves the map, and the
/// value it held is returned. The call is taken not to unwind.
#[verifier::external_body]
pub(crate) fn map_remove(map: &mut DashMap<String, VmSession, RandomState>, key: &str) -> (removed:
    Option<VmSession>)
    ensures
        stored_sessions(*final(map)) == stored_sessions(*old(map)).remove(key@),
        match removed {
            Some(r) => stored_sessions(*old(map)).contains_key(key@) && r@ == stored_sessions(
                *old(map),
            )[key@],
            None => !stored_sessions(*old(map)).contains_key(key@),
        },
    no_unwind
{
    match map.remove(key) {
        Some((_, session)) => Some(session),
        None => None,
    }
}

/// Calls `DashMap::get` and copies the value that the key holds, if any.
#[verifier::external_body]
pub(crate) fn map_get(map: &DashMap<String, VmSession, RandomState>, key: &str) -> (found: Option<
    VmSession,
>)
    ensures
        match found {
            Some(s) => stored_sessions(*map).contains_key(key@) && s@ == stored_sessions(
                *map,
            )[key@],
            None => !stored_sessions(*map).contains_key(key@),
        },
{
    match map.get(key) {
        Some(entry) => Some(entry.value().clone()),
        None => None,
    }
}

/// Calls `DashMap::iter` and copies the key of each entry. Each key of the
/// map comes once; the order is the map's own and is not stated.
#[verifier::external_body]
pub(crate) fn map_keys(map: &DashMap<String, VmSession, RandomState>) -> (keys: Vec<String>)
    ensures
        forall|i: int| 0 <= i < keys@.len() ==> stored_sessions(*map).contains_key(#[trigger] keys@[i]@),
        forall|k: Seq<char>| #[trigger]
            stored_sessions(*map).contains_key(k) ==> exists|i: int|
                0 <= i < keys@.len() && #[trigger] keys@[i]@ == k,
        forall|i: int, j: int| 0 <= i < j < keys@.len() ==> #[trigger] keys@[i]@ != #[trigger] keys@[j]@,
{
    let mut keys = Vec::new();
    for entry in map.iter() {
        keys.push(entry.key().clone());
    }
    keys
}

/// The registry of sessions.
pub struct SessionStore {
    map: DashMap<String, VmSession, RandomState>,
}

impl View for SessionStore {
    type V = Map<Seq<char>, SessionView>;

    closed spec fn view(&self) -> Map<Seq<char>, SessionView> {
        stored_sessions(self.map)
    }
}

/// The invariant of a registry: it holds finitely many sessions, each under
/// its own id and each well-formed.
pub open spec fn registry_wf(sessions: Map<Seq<char>, SessionView>) -> bool {
    &&& sessions.dom().finite()
    &&& forall|id: Seq<char>| #[trigger]
        sessions.contains_key(id) ==> sessions[id].id == id && sessions[id].wf()
}

/// Whether `after` can follow `before` in the life of a registry: a session
/// that is in both kept its identity, and its status stayed or went from
/// `Starting` to `Running` or `Error`.
pub open spec fn registry_step(
    before: Map<Seq<char>, SessionView>,
    after: Map<Seq<char>, SessionView>,
) -> bool {
    forall|id: Seq<char>| #[trigger]
        before.contains_key(id) && after.contains_key(id) ==> {
            &&& after[id].challenge_id == before[id].challenge_id
            &&& after[id].created_at == before[id].created_at
            &&& before[id].status.may_become(after[id].status)
        }
}

impl SessionStore {
    /// Every registry holds finitely many sessions, each under its own id
    /// and each well-formed.
    #[verifier::type_invariant]
    spec fn inv(self) -> bool {
        registry_wf(stored_sessions(self.map))
    }

    /// A registry that holds no session.
    pub fn new() -> (store: SessionStore)
        ensures
            store@ == empty_registry(),
    {
        SessionStore { map: map_new() }
    }

    /// Recalls the invariant of the registry. Nothing is done at run time.
    pub fn attest(&self)
        ensures
            registry_wf(self@),
    {
        proof {
            use_type_invariant(self);
        }
    }

    /// A copy of the session with this id, if the registry holds one.
    pub fn get(&self, id: &str) -> (found: Option<VmSession>)
        ensures
            registry_wf(self@),
            match found {
                Some(s) => self@.contains_key(id@) && s@ == self@[id@],
                None => !self@.contains_key(id@),
            },
    {
        proof {
            use_type_invariant(self);
        }
        map_get(&self.map, id)
    }

    /// The ids of the sessions that the registry holds, each once, in no
    /// stated order.
    pub fn ids(&self) -> (ids: Vec<String>)
        ensures
            registry_wf(self@),
            forall|i: int| 0 <= i < ids@.len() ==> self@.contains_key(#[trigger] ids@[i]@),
            forall|k: Seq<char>| #[trigger]
                self@.contains_key(k) ==> exists|i: int| 0 <= i < ids@.len() && #[trigger] ids@[i]@ == k,
            forall|i: int, j: int| 0 <= i < j < ids@.len() ==> #[trigger] ids@[i]@ != #[trigger] ids@[j]@,
    {
        proof {
            use_type_invariant(self);
        }
        map_keys(&self.map)
    }

    /// Stores a well-formed session under its id, in place of any session
    /// that had it.
    pub(crate) fn put(&mut self, session: VmSession)
        requires
            session@.wf(),
        ensures
            final(self)@ == old(self)@.insert(session@.id, session@),
            registry_wf(final(self)@),
    {
        proof {
            use_type_invariant(&*self);
        }
        let key = session.id.clone();
        let _ = map_insert(&mut self.map, key, session);
        proof {
            use_type_invariant(&*self);
        }
    }

    /// Stores a session under its id, in place of any session that had it,
    /// if it meets the invariant of a session. A session that does not is
    /// refused: `false` is returned and nothing changes.
    pub fn insert(&mut self, session: VmSession) -> (stored: bool)
        ensures
            stored == session@.wf(),
            stored ==> final(self)@ == old(self)@.insert(session@.id, session@),
            !stored ==> final(self)@ == old(self)@,
            registry_wf(final(self)@),
    {
        if session.is_well_formed() {
            self.put(session);
            true
        } else {
            self.attest();
            false
        }
    }

    /// Takes the session with this id out of the registry.
    pub fn remove(&mut self, id: &str) -> (removed: Option<VmSession>)
        ensures
            final(self)@ == old(self)@.remove(id@),
            registry_wf(old(self)@),
            registry_wf(final(self)@),
            match removed {
                Some(r) => old(self)@.contains_key(id@) && r@ == old(self)@[id@],
                None => !old(self)@.contains_key(id@),
            },
    {
        proof {
            use_type_invariant(&*self);
        }
        let removed = map_remove(&mut self.map, id);
        proof {
            use_type_invariant(&*self);
        }
        removed
    }
}

/// The state that the engine works on. The client of the container runtime
/// is no part of it: the engine only decides, and its caller talks to the
/// runtime.
pub struct AppState {
    pub sessions: SessionStore,
}

impl AppState {
    /// A state without sessions.
    pub fn new() -> (state: AppState)
        ensures
            state.sessions@ == empty_registry(),
    {
        AppState { sessions: SessionStore::new() }
    }
}

} // verus!
