//! The bypassed-hosts set of a proxy instance: hostnames the user has
//! chosen to visit despite a failed certificate validation.
//!
//! The set grows only through token redemption, shrinks through explicit
//! removal or clearing, and is consulted on every handshake and every
//! request-routing decision.

use vstd::prelude::*;

verus! {

use vstd::hash_set::StringHashSet;

/// The set of hostnames whose upstream certificates the proxy currently
/// treats as trusted without validation.
pub struct BypassedHosts {
    hosts: StringHashSet,
}

impl View for BypassedHosts {
    type V = Set<Seq<char>>;

    closed spec fn view(&self) -> Set<Seq<char>> {
        self.hosts@
    }
}

impl BypassedHosts {
    /// An empty set: no host is bypassed.
    pub fn new() -> (r: Self)
        ensures
            r@ == Set::<Seq<char>>::empty(),
    {
        BypassedHosts { hosts: StringHashSet::new() }
    }

    /// Whether `host` is currently bypassed.
    pub fn contains(&self, host: &str) -> (r: bool)
        ensures
            r == self@.contains(host@),
    {
        self.hosts.contains(host)
    }

    /// Adds `host` to the set.
    pub fn insert(&mut self, host: String)
        ensures
            final(self)@ == old(self)@.insert(host@),
    {
        self.hosts.insert(host);
    }

    /// Removes `host` from the set; subsequent handshake decisions for it
    /// fall back to standard validation.
    pub fn remove(&mut self, host: &str)
        ensures
            final(self)@ == old(self)@.remove(host@),
    {
        self.hosts.remove(host);
    }

    /// Empties the set.
    pub fn clear(&mut self)
        ensures
            final(self)@ == Set::<Seq<char>>::empty(),
    {
        self.hosts.clear()
    }
}

} // verus!
