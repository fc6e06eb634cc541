//! Resource registries.
//!
//! Hooked calls receive opaque native handles and must recover the
//! shim's own context from them: which instance a physical device
//! belongs to, which device a queue was created on, which device owns
//! a swap chain.  Each such relation is a concurrent handle-to-handle
//! map with an explicit lifecycle: an entry is inserted when the
//! creation call is intercepted and removed when the destruction call
//! is; nothing is collected behind the shim's back.

use vstd::prelude::*;

verus! {

/// Declares the concurrent map the registries are built on.
#[verifier::external_type_specification]
#[verifier::external_body]
#[verifier::reject_recursive_types(K)]
#[verifier::reject_recursive_types(V)]
#[verifier::reject_recursive_types(S)]
pub struct ExDashMap<K, V, S>(dashmap::DashMap<K, V, S>);

/// The concrete relation type: opaque native handle to context handle.
pub type ContextMap = dashmap::DashMap<u64, u64>;

/// The entries the map holds.
pub uninterp spec fn handle_map(m: ContextMap) -> Map<u64, u64>;

/// The relation with nothing in it.
pub open spec fn no_entries() -> Map<u64, u64> {
    Map::empty()
}

/// Relies on dashmap::DashMap::new: an empty map.
#[verifier::external_body]
fn handle_map_new() -> (r: ContextMap)
    ensures
        handle_map(r) == no_entries(),
{
    dashmap::DashMap::new()
}

/// Relies on dashmap::DashMap::insert: binds the key, returning the
/// value it displaced.
#[verifier::external_body]
fn handle_map_insert(m: &mut ContextMap, k: u64, v: u64) -> (prev: Option<u64>)
    ensures
        handle_map(*final(m)) == handle_map(*old(m)).insert(k, v),
        prev == if handle_map(*old(m)).dom().contains(k) {
            Some(handle_map(*old(m))[k])
        } else {
            None
        },
{
    m.insert(k, v)
}

/// Relies on dashmap::DashMap::get: the value bound to the key.
#[verifier::external_body]
fn handle_map_get(m: &ContextMap, k: u64) -> (r: Option<u64>)
    ensures
        r == if handle_map(*m).dom().contains(k) {
            Some(handle_map(*m)[k])
        } else {
            None
        },
{
    m.get(&k).map(|entry| *entry)
}

/// Relies on dashmap::DashMap::remove: unbinds the key, returning the
/// value it held.
#[verifier::external_body]
fn handle_map_remove(m: &mut ContextMap, k: u64) -> (r: Option<u64>)
    ensures
        handle_map(*final(m)) == handle_map(*old(m)).remove(k),
        r == if handle_map(*old(m)).dom().contains(k) {
            Some(handle_map(*old(m))[k])
        } else {
            None
        },
{
    m.remove(&k).map(|(_, v)| v)
}

/// One handle-to-context relation, owner of its entries' lifecycle.
pub struct HandleRegistry {
    map: ContextMap,
}

impl HandleRegistry {
    /// The handles currently known and what each resolves to.
    pub closed spec fn view_spec(self) -> Map<u64, u64> {
        handle_map(self.map)
    }

    /// A registry with nothing created yet.
    pub fn new() -> (r: Self)
        ensures
            r.view_spec() == no_entries(),
    {
        HandleRegistry { map: handle_map_new() }
    }

    /// Record a creation: from now on `handle` resolves to `context`.
    pub fn record(&mut self, handle: u64, context: u64)
        ensures
            final(self).view_spec() == old(self).view_spec().insert(handle, context),
    {
        handle_map_insert(&mut self.map, handle, context);
    }

    /// Resolve a handle passed into a hooked call.  A miss means the
    /// handle was never seen at creation: the caller treats that as a
    /// framework bug, never as host data.
    pub fn resolve(&self, handle: u64) -> (r: Option<u64>)
        ensures
            r == if self.view_spec().dom().contains(handle) {
                Some(self.view_spec()[handle])
            } else {
                None
            },
    {
        handle_map_get(&self.map, handle)
    }

    /// Record a destruction: the handle no longer resolves, and the
    /// context it resolved to is handed back for teardown.
    pub fn forget(&mut self, handle: u64) -> (r: Option<u64>)
        ensures
            final(self).view_spec() == old(self).view_spec().remove(handle),
            r == if old(self).view_spec().dom().contains(handle) {
                Some(old(self).view_spec()[handle])
            } else {
                None
            },
    {
        handle_map_remove(&mut self.map, handle)
    }
}

/// Creation and destruction pair up: recording a handle makes it
/// resolve to its context, forgetting it afterwards restores whatever
/// held before, and other handles never notice either step.
pub proof fn lemma_lifecycle_pairing(m: Map<u64, u64>, handle: u64, context: u64)
    ensures
        m.insert(handle, context)[handle] == context,
        forall|h: u64| h != handle && m.dom().contains(h) ==> m.insert(
            handle,
            context,
        )[h] == m[h],
        !m.dom().contains(handle) ==> m.insert(handle, context).remove(handle) =~= m,
        forall|h: u64| h != handle && m.dom().contains(h) ==> m.remove(handle).dom().contains(h)
            && m.remove(handle)[h] == m[h],
{
}

} // verus!
