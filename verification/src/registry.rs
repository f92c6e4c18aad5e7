use vstd::prelude::*;

verus! {

/// What the registry records about one live session. The session's operating
/// system resources (its input sink, output buffer and cancel signal) live
/// with the unverified runtime that spawned the shell, keyed by the same id.
#[derive(Clone, Debug)]
pub struct SessionInfo {
    /// The principal the session was requested for; absent means the
    /// service's own principal.
    pub user: Option<String>,
}

/// Declares dashmap::DashMap — a concurrent map with per-shard, not
/// whole-table, locking — so it can stand in a field. Verus sees nothing
/// inside a value of it; everything it holds is spoken of through
/// `table_of`.
#[verifier::external_type_specification]
#[verifier::external_body]
#[verifier::reject_recursive_types(K)]
#[verifier::reject_recursive_types(V)]
#[verifier::reject_recursive_types(S)]
pub struct ExDashMap<K, V, S>(dashmap::DashMap<K, V, S>);

/// The entries a concurrent session table holds, as a map from the id's
/// characters to the recorded session.
pub uninterp spec fn table_of(m: dashmap::DashMap<String, SessionInfo>) -> Map<
    Seq<char>,
    SessionInfo,
>;

/// The table of a service with no sessions.
pub open spec fn empty_table() -> Map<Seq<char>, SessionInfo> {
    Map::empty()
}

/// Relies on dashmap::DashMap::new: a table with no entries.
#[verifier::external_body]
fn table_new() -> (m: dashmap::DashMap<String, SessionInfo>)
    ensures
        table_of(m) == empty_table(),
{
    dashmap::DashMap::new()
}

/// Relies on dashmap::DashMap::insert: the entry is added, replacing any
/// entry under an equal key.
#[verifier::external_body]
fn table_insert(m: &mut dashmap::DashMap<String, SessionInfo>, id: String, info: SessionInfo)
    ensures
        table_of(*final(m)) == table_of(*old(m)).insert(id@, info),
{
    m.insert(id, info);
}

/// Relies on dashmap::DashMap::contains_key.
#[verifier::external_body]
fn table_contains(m: &dashmap::DashMap<String, SessionInfo>, id: &String) -> (r: bool)
    ensures
        r == table_of(*m).contains_key(id@),
{
    m.contains_key(id)
}

/// Relies on dashmap::DashMap::get, cloning the found entry out of its
/// guard.
#[verifier::external_body]
fn table_get(m: &dashmap::DashMap<String, SessionInfo>, id: &String) -> (r: Option<SessionInfo>)
    ensures
        r is Some <==> table_of(*m).contains_key(id@),
        r matches Some(info) ==> table_of(*m)[id@] == info,
{
    m.get(id).map(|entry| entry.value().clone())
}

/// Relies on dashmap::DashMap::remove: the entry under the key, if any, is
/// taken out of the table and handed back.
#[verifier::external_body]
fn table_remove(m: &mut dashmap::DashMap<String, SessionInfo>, id: &String) -> (r: Option<
    SessionInfo,
>)
    ensures
        table_of(*final(m)) == table_of(*old(m)).remove(id@),
        r is Some <==> table_of(*old(m)).contains_key(id@),
        r matches Some(info) ==> table_of(*old(m))[id@] == info,
{
    m.remove(id).map(|entry| entry.1)
}

/// Relies on dashmap::DashMap::len: the number of entries.
#[verifier::external_body]
fn table_len(m: &dashmap::DashMap<String, SessionInfo>) -> (n: usize)
    ensures
        n == table_of(*m).dom().len(),
{
    m.len()
}

/// The process-wide table of live sessions: a concurrent map from session id
/// to its record, locked per entry so that operations on distinct sessions
/// proceed in parallel.
pub struct Registry {
    table: dashmap::DashMap<String, SessionInfo>,
}

impl View for Registry {
    type V = Map<Seq<char>, SessionInfo>;

    closed spec fn view(&self) -> Map<Seq<char>, SessionInfo> {
        table_of(self.table)
    }
}

impl Registry {
    /// A registry is well formed when its entry set is finite, as every
    /// registry reached from `new` is.
    pub open spec fn wf(&self) -> bool {
        self@.dom().finite()
    }

    /// An empty registry, created once at service start.
    pub fn new() -> (r: Registry)
        ensures
            r@ == empty_table(),
            r.wf(),
    {
        Registry { table: table_new() }
    }

    /// Adds a session under a fresh id. Fails, changing nothing, when the id
    /// is already present.
    pub fn register(&mut self, id: String, info: SessionInfo) -> (r: bool)
        requires
            old(self).wf(),
        ensures
            final(self).wf(),
            r == !old(self)@.contains_key(id@),
            r ==> final(self)@ == old(self)@.insert(id@, info),
            !r ==> final(self)@ == old(self)@,
    {
        if table_contains(&self.table, &id) {
            false
        } else {
            table_insert(&mut self.table, id, info);
            true
        }
    }

    /// Whether the id names a live session.
    pub fn contains(&self, id: &String) -> (r: bool)
        ensures
            r == self@.contains_key(id@),
    {
        table_contains(&self.table, id)
    }

    /// The record of a live session, or nothing for an unknown id.
    pub fn lookup(&self, id: &String) -> (r: Option<SessionInfo>)
        ensures
            r is Some <==> self@.contains_key(id@),
            r matches Some(info) ==> self@[id@] == info,
    {
        table_get(&self.table, id)
    }

    /// Takes the session out of the registry, handing back its record, or
    /// nothing for an unknown id.
    pub fn remove(&mut self, id: &String) -> (r: Option<SessionInfo>)
        requires
            old(self).wf(),
        ensures
            final(self).wf(),
            final(self)@ == old(self)@.remove(id@),
            r is Some <==> old(self)@.contains_key(id@),
            r matches Some(info) ==> old(self)@[id@] == info,
    {
        table_remove(&mut self.table, id)
    }

    /// The number of live sessions.
    pub fn len(&self) -> (n: usize)
        ensures
            n == self@.dom().len(),
    {
        table_len(&self.table)
    }
}

/// Law: a successful session start grows the registry by exactly one entry
/// and makes the new id lookupable. `start_session` ensures that a
/// successful call turns the table `m` into `m.insert(id, info)` with `id`
/// fresh; this states what that does to the table's size and domain.
pub proof fn lemma_register_grows(m: Map<Seq<char>, SessionInfo>, id: Seq<char>, info: SessionInfo)
    requires
        m.dom().finite(),
        !m.contains_key(id),
    ensures
        m.insert(id, info).dom().len() == m.dom().len() + 1,
        m.insert(id, info).contains_key(id),
        m.insert(id, info)[id] == info,
{
    assert(m.insert(id, info).dom() =~= m.dom().insert(id));
    vstd::set::axiom_set_insert_len(m.dom(), id);
}

/// Law: closing a live session shrinks the registry by exactly one entry,
/// and the id then resolves no more — every later ExecCommand or
/// CloseSession on it takes the unknown-id path of its contract.
/// `close_session` ensures that closing turns the table `m` into
/// `m.remove(id)`; this states what that does to the table's size and
/// domain.
pub proof fn lemma_close_shrinks(m: Map<Seq<char>, SessionInfo>, id: Seq<char>)
    requires
        m.dom().finite(),
        m.contains_key(id),
    ensures
        m.remove(id).dom().len() == m.dom().len() - 1,
        !m.remove(id).contains_key(id),
{
    assert(m.remove(id).dom() =~= m.dom().remove(id));
    vstd::set::axiom_set_remove_len(m.dom(), id);
}

/// Law (lifecycle round trip): starting a session under a fresh id and
/// then closing it returns the registry to exactly where it stood. While
/// registered the id resolves to what was registered, and after the close
/// it resolves no more — the start → exec → close → exec chain follows end
/// to end from the handlers' contracts through this table.
pub proof fn lemma_lifecycle_round_trip(
    m: Map<Seq<char>, SessionInfo>,
    id: Seq<char>,
    info: SessionInfo,
)
    requires
        !m.contains_key(id),
    ensures
        m.insert(id, info).contains_key(id),
        m.insert(id, info)[id] == info,
        !m.insert(id, info).remove(id).contains_key(id),
        m.insert(id, info).remove(id) == m,
{
    assert(m.insert(id, info).remove(id) =~= m);
}

} // verus!
