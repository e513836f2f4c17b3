//! The registry of connected agents: which tunnel identifier is served by
//! which local listener address.

use std::collections::HashMap;
use vstd::prelude::*;
use crate::tunnel_id::TunnelId;

verus! {

broadcast use vstd::std_specs::hash::group_hash_axioms;

/// Maps each registered tunnel identifier to the address of the listener
/// that feeds its session.
#[derive(Debug)]
pub struct ClientRegistry {
    entries: HashMap<u128, String>,
}

impl View for ClientRegistry {
    type V = Map<u128, Seq<char>>;

    /// The registered addresses, keyed by the identifier's value.
    closed spec fn view(&self) -> Map<u128, Seq<char>> {
        Map::new(|k: u128| self.entries@.contains_key(k), |k: u128| self.entries@[k]@)
    }
}

/// The identifier that a session gets: the one it asked for unless that one
/// is taken, in which case the fallback.
pub open spec fn assigned_id(taken: Map<u128, Seq<char>>, wanted: TunnelId, fallback: TunnelId)
    -> TunnelId {
    if taken.contains_key(wanted.value) {
        fallback
    } else {
        wanted
    }
}

impl ClientRegistry {
    /// A registry without entries.
    pub fn new() -> (registry: ClientRegistry)
        ensures
            registry@ == Map::<u128, Seq<char>>::empty(),
    {
        let registry = ClientRegistry { entries: HashMap::new() };
        assert(registry@ =~= Map::<u128, Seq<char>>::empty());
        registry
    }

    /// Places the mapping from `id` to `addr`, replacing an earlier one.
    pub fn insert(&mut self, id: TunnelId, addr: String)
        ensures
            final(self)@ == old(self)@.insert(id.value, addr@),
    {
        self.entries.insert(id.value, addr);
        assert(self@ =~= old(self)@.insert(id.value, addr@));
    }

    /// Removes the mapping of `id`, if there is one.
    pub fn remove(&mut self, id: TunnelId)
        ensures
            final(self)@ == old(self)@.remove(id.value),
            !final(self)@.contains_key(id.value),
    {
        self.entries.remove(&id.value);
        assert(self@ =~= old(self)@.remove(id.value));
    }

    /// The address registered for `id`, if any.
    pub fn lookup(&self, id: TunnelId) -> (addr: Option<String>)
        ensures
            addr is Some <==> self@.contains_key(id.value),
            addr matches Some(a) ==> a@ == self@[id.value],
    {
        match self.entries.get(&id.value) {
            Some(a) => Some(a.clone()),
            None => None,
        }
    }

    /// Whether `id` is registered.
    pub fn contains(&self, id: TunnelId) -> (present: bool)
        ensures
            present == self@.contains_key(id.value),
    {
        self.entries.contains_key(&id.value)
    }

    /// The number of registered identifiers.
    pub fn len(&self) -> (n: usize)
        ensures
            n == self@.len(),
            self@.dom().finite(),
    {
        assert(self@.dom() =~= self.entries@.dom());
        self.entries.len()
    }

    /// Registers a session under the identifier it asked for, or under
    /// `fallback` where that identifier is taken, and returns the one used.
    pub fn register(&mut self, wanted: TunnelId, fallback: TunnelId, addr: String) -> (id: TunnelId)
        ensures
            id == assigned_id(old(self)@, wanted, fallback),
            final(self)@ == old(self)@.insert(id.value, addr@),
    {
        let id = if self.contains(wanted) {
            fallback
        } else {
            wanted
        };
        self.insert(id, addr);
        id
    }
}

/// After an identifier is removed, looking it up finds nothing, whatever was
/// registered before; every other entry is as it was.
pub proof fn lemma_removed_is_absent(entries: Map<u128, Seq<char>>, id: TunnelId, other: TunnelId)
    ensures
        !entries.remove(id.value).contains_key(id.value),
        other != id ==> (entries.remove(id.value).contains_key(other.value)
            <==> entries.contains_key(other.value)),
        other != id && entries.contains_key(other.value) ==> entries.remove(id.value)[other.value]
            == entries[other.value],
{
}

/// Removing an identifier twice is the same as removing it once.
pub proof fn lemma_remove_idempotent(entries: Map<u128, Seq<char>>, id: TunnelId)
    ensures
        entries.remove(id.value).remove(id.value) == entries.remove(id.value),
{
    assert(entries.remove(id.value).remove(id.value) =~= entries.remove(id.value));
}

/// A registered session is found under the identifier it was given, with the
/// address it registered, and no other entry changes.
pub proof fn lemma_registered_is_found(
    entries: Map<u128, Seq<char>>,
    wanted: TunnelId,
    fallback: TunnelId,
    addr: Seq<char>,
    other: TunnelId,
)
    ensures
        ({
            let id = assigned_id(entries, wanted, fallback);
            let after = entries.insert(id.value, addr);
            &&& after.contains_key(id.value)
            &&& after[id.value] == addr
            &&& !entries.contains_key(wanted.value) ==> id == wanted
            &&& other != id ==> (after.contains_key(other.value) <==> entries.contains_key(
                other.value,
            ))
        }),
{
}

} // verus!
