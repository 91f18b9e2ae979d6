use vstd::prelude::*;

use std::collections::HashMap;

verus! {

broadcast use vstd::std_specs::hash::group_hash_axioms;

/// The process-wide table of services: at most one address per actor type,
/// under a key that stands for the type.
pub struct ServiceRegistry<V> {
    pub entries: HashMap<u64, V>,
}

/// What a lookup of a service asks of its caller.
#[derive(Debug, Clone, Copy, PartialEq, Eq, Structural)]
pub enum ServiceAction {
    /// Hand out a clone of the registered address.
    Reuse,
    /// Launch the service from its default value and register its address.
    Launch,
}

/// A registered service is reused while it runs; one that is missing or has
/// stopped is launched afresh.
pub open spec fn service_action_spec(registered: bool, stopped: bool) -> ServiceAction {
    if registered && !stopped {
        ServiceAction::Reuse
    } else {
        ServiceAction::Launch
    }
}

/// Decides what a lookup does, given whether an address is registered for the
/// type and, if so, whether its actor has stopped.
pub fn service_action(registered: bool, stopped: bool) -> (r: ServiceAction)
    ensures
        r == service_action_spec(registered, stopped),
{
    if registered && !stopped {
        ServiceAction::Reuse
    } else {
        ServiceAction::Launch
    }
}

impl<V> View for ServiceRegistry<V> {
    type V = Map<u64, V>;

    open spec fn view(&self) -> Map<u64, V> {
        self.entries@
    }
}

impl<V> ServiceRegistry<V> {
    pub fn new() -> (r: Self)
        ensures
            r@ == Map::<u64, V>::empty(),
    {
        ServiceRegistry { entries: HashMap::new() }
    }

    /// Stores `addr` under `key` and gives back the address it replaces.
    pub fn register(&mut self, key: u64, addr: V) -> (prev: Option<V>)
        ensures
            final(self)@ == old(self)@.insert(key, addr),
            prev == (if old(self)@.contains_key(key) {
                Some(old(self)@[key])
            } else {
                None
            }),
    {
        self.entries.insert(key, addr)
    }

    /// The address registered under `key`, if any.
    pub fn get(&self, key: u64) -> (r: Option<&V>)
        ensures
            match r {
                Some(v) => self@.contains_key(key) && *v == self@[key],
                None => !self@.contains_key(key),
            },
    {
        self.entries.get(&key)
    }

    /// Takes the address registered under `key` out of the table.
    pub fn unregister(&mut self, key: u64) -> (prev: Option<V>)
        ensures
            final(self)@ == old(self)@.remove(key),
            prev == (if old(self)@.contains_key(key) {
                Some(old(self)@[key])
            } else {
                None
            }),
    {
        self.entries.remove(&key)
    }
}

/// Lookups of a service are serialised by the registry's lock, so of two
/// first lookups only one launches: once the first has registered the address
/// it launched, the second finds that address, running, and reuses it, and
/// registering it again changes nothing.
pub proof fn law_service_launched_once<V>(m: Map<u64, V>, key: u64, addr: V)
    ensures
        m.insert(key, addr).contains_key(key),
        m.insert(key, addr)[key] == addr,
        service_action_spec(m.insert(key, addr).contains_key(key), false) == ServiceAction::Reuse,
        m.insert(key, addr).insert(key, addr) == m.insert(key, addr),
{
    assert(m.insert(key, addr).insert(key, addr) =~= m.insert(key, addr));
}

} // verus!
