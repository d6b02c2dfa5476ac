use vstd::prelude::*;

use crate::identity::FileIdentity;
use crate::port::PortRef;

verus! {

/// The sharded concurrent map instantiated at the registry's key and value.
pub type PortMap = dashmap::DashMap<FileIdentity, PortRef>;

/// What the concurrent map holds, as a mathematical map from identity to
/// port. Applied by the contracts of the trusted wrappers below; nothing else
/// defines it.
pub uninterp spec fn dash_contents(m: PortMap) -> Map<FileIdentity, PortRef>;

/// The registry's mathematical map with no entries.
pub open spec fn empty_port_map() -> Map<FileIdentity, PortRef> {
    Map::empty()
}

#[verifier::external_type_specification]
#[verifier::external_body]
#[verifier::reject_recursive_types(K)]
#[verifier::reject_recursive_types(V)]
#[verifier::reject_recursive_types(S)]
pub struct ExDashMap<K, V, S>(dashmap::DashMap<K, V, S>);

/// Relies on `dashmap::DashMap::new`, which builds a map with no entries.
#[verifier::external_body]
fn dash_new() -> (m: PortMap)
    ensures
        dash_contents(m) == empty_port_map(),
{
    dashmap::DashMap::new()
}

/// Relies on `dashmap::DashMap::entry` and dashmap's `Entry` API: `entry(key)`
/// takes the key's shard write lock and is `Occupied` exactly when the map
/// holds an equal key, and `VacantEntry::insert` stores the pair under that
/// same lock, so the check and the insert are atomic with respect to other
/// operations on the same key.
#[verifier::external_body]
fn dash_insert_if_vacant(m: &mut PortMap, key: FileIdentity, value: PortRef) -> (inserted: bool)
    ensures
        inserted == !dash_contents(*old(m)).contains_key(key),
        dash_contents(*final(m)) == if inserted {
            dash_contents(*old(m)).insert(key, value)
        } else {
            dash_contents(*old(m))
        },
{
    match m.entry(key) {
        dashmap::Entry::Occupied(_) => false,
        dashmap::Entry::Vacant(e) => {
            e.insert(value);
            true
        },
    }
}

/// Relies on `dashmap::DashMap::get` and `Ref::value`: `get` returns a guard
/// for the value stored under an equal key, or `None` when there is none.
#[verifier::external_body]
fn dash_get(m: &PortMap, key: FileIdentity) -> (r: Option<PortRef>)
    ensures
        r == if dash_contents(*m).contains_key(key) {
            Some(dash_contents(*m)[key])
        } else {
            None::<PortRef>
        },
{
    match m.get(&key) {
        Some(guard) => Some(*guard.value()),
        None => None,
    }
}

/// Why a registration was refused.
#[derive(Clone, Copy, PartialEq, Eq, Structural, Debug)]
pub enum RegisterError {
    /// The identity already has an entry; entries are never overwritten.
    AlreadyRegistered,
}

/// The map and success flag that a registration yields: the pair goes in only
/// when the identity had no entry, and an existing entry is never changed.
pub open spec fn spec_register(
    m: Map<FileIdentity, PortRef>,
    id: FileIdentity,
    port: PortRef,
) -> (Map<FileIdentity, PortRef>, bool) {
    if m.contains_key(id) {
        (m, false)
    } else {
        (m.insert(id, port), true)
    }
}

/// The port that a lookup yields: the stored one when the identity has an
/// entry, and nothing otherwise.
pub open spec fn spec_lookup(m: Map<FileIdentity, PortRef>, id: FileIdentity) -> Option<PortRef> {
    if m.contains_key(id) {
        Some(m[id])
    } else {
        None
    }
}

/// Concurrent mapping from file identity to port reference. At most one
/// registration per identity ever succeeds; entries are never overwritten and
/// never removed. Backed by a sharded concurrent map, so operations on
/// distinct identities do not block each other.
pub struct Registry {
    map: PortMap,
}

impl View for Registry {
    type V = Map<FileIdentity, PortRef>;

    closed spec fn view(&self) -> Map<FileIdentity, PortRef> {
        dash_contents(self.map)
    }
}

impl Registry {
    /// An empty registry.
    pub fn new() -> (r: Registry)
        ensures
            r@ == empty_port_map(),
    {
        Registry { map: dash_new() }
    }

    /// Store `port` under `id` if `id` has no entry yet; fail with
    /// `AlreadyRegistered` otherwise, leaving the stored entry unchanged.
    /// First writer wins: the vacancy check and the insert are atomic per key.
    pub fn register(&mut self, id: FileIdentity, port: PortRef) -> (r: Result<(), RegisterError>)
        ensures
            final(self)@ == spec_register(old(self)@, id, port).0,
            r is Ok <==> spec_register(old(self)@, id, port).1,
            r is Ok <==> !old(self)@.contains_key(id),
    {
        if dash_insert_if_vacant(&mut self.map, id, port) {
            Ok(())
        } else {
            Err(RegisterError::AlreadyRegistered)
        }
    }

    /// The port stored under `id`, or nothing when `id` was never registered.
    pub fn lookup(&self, id: FileIdentity) -> (r: Option<PortRef>)
        ensures
            r == spec_lookup(self@, id),
    {
        dash_get(&self.map, id)
    }
}

/// Law: registering a port under an identity and then looking that identity
/// up yields exactly that port, whenever the registration succeeded.
pub proof fn lemma_register_then_lookup(
    m: Map<FileIdentity, PortRef>,
    id: FileIdentity,
    port: PortRef,
)
    ensures
        spec_register(m, id, port).1 ==> spec_lookup(spec_register(m, id, port).0, id) == Some(
            port,
        ),
{
}

/// Law: after a successful registration, a second registration on the same
/// identity fails, changes nothing, and a lookup still yields the first port,
/// not the second.
pub proof fn lemma_second_register_fails(
    m: Map<FileIdentity, PortRef>,
    id: FileIdentity,
    port1: PortRef,
    port2: PortRef,
)
    requires
        !m.contains_key(id),
    ensures
        spec_register(m, id, port1).1,
        !spec_register(spec_register(m, id, port1).0, id, port2).1,
        spec_register(spec_register(m, id, port1).0, id, port2).0 == spec_register(m, id, port1).0,
        spec_lookup(spec_register(spec_register(m, id, port1).0, id, port2).0, id) == Some(port1),
{
}

/// Law: looking up an identity that was never registered yields nothing.
pub proof fn lemma_lookup_unregistered(m: Map<FileIdentity, PortRef>, id: FileIdentity)
    requires
        !m.contains_key(id),
    ensures
        spec_lookup(m, id) == None::<PortRef>,
{
}

/// Law: registrations on distinct fresh identities are independent: each
/// succeeds whatever order they run in, and each identity afterwards yields
/// its own port. (That the two need not wait for each other rests on the
/// backing map's per-shard locking.)
pub proof fn lemma_distinct_identities_independent(
    m: Map<FileIdentity, PortRef>,
    id1: FileIdentity,
    id2: FileIdentity,
    port1: PortRef,
    port2: PortRef,
)
    requires
        id1 != id2,
        !m.contains_key(id1),
        !m.contains_key(id2),
    ensures
        spec_register(m, id1, port1).1,
        spec_register(spec_register(m, id1, port1).0, id2, port2).1,
        spec_lookup(spec_register(spec_register(m, id1, port1).0, id2, port2).0, id1) == Some(
            port1,
        ),
        spec_lookup(spec_register(spec_register(m, id1, port1).0, id2, port2).0, id2) == Some(
            port2,
        ),
{
}

} // verus!
