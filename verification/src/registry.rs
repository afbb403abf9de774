//! The location registry: user identifier to last-registered contact URI.

use crate::message::SipUri;
use vstd::hash_map::StringHashMap;
use vstd::prelude::*;

verus! {

/// The in-memory mapping from a user identifier to the contact URI that was
/// registered for it last.
///
/// A put unconditionally overwrites any earlier entry for the same user, so
/// at any time the registry holds at most one contact per user.  Entries
/// never expire; they live until the registry itself is dropped.
pub struct Registry {
    entries: StringHashMap<SipUri>,
}

impl View for Registry {
    type V = Map<Seq<char>, SipUri>;

    closed spec fn view(&self) -> Map<Seq<char>, SipUri> {
        self.entries@
    }
}

impl Registry {
    /// An empty registry.
    pub fn new() -> (r: Self)
        ensures
            r@ == Map::<Seq<char>, SipUri>::empty(),
    {
        Registry { entries: StringHashMap::new() }
    }

    /// Records `contact` as the one current contact of `user`, overwriting
    /// any earlier entry for `user`.
    pub fn put(&mut self, user: String, contact: SipUri)
        ensures
            final(self)@ == old(self)@.insert(user@, contact),
    {
        self.entries.insert(user, contact);
    }

    /// The contact registered for `user` last, or `None` for a user with
    /// no entry.
    pub fn get(&self, user: &str) -> (r: Option<&SipUri>)
        ensures
            match r {
                Some(contact) => self@.contains_key(user@) && *contact == self@[user@],
                None => !self@.contains_key(user@),
            },
    {
        self.entries.get(user)
    }
}

/// LAW: registration overwrites.  For every registry state, user `u` and
/// contacts `c1` then `c2`, putting `c1` and then `c2` for `u` leaves a
/// registry whose one entry for `u` is `c2` — the later registration
/// replaces the earlier one, and no other user's entry changes.
pub proof fn lemma_put_overwrites(m: Map<Seq<char>, SipUri>, u: Seq<char>, c1: SipUri, c2: SipUri)
    ensures
        m.insert(u, c1).insert(u, c2).contains_key(u),
        m.insert(u, c1).insert(u, c2)[u] == c2,
        forall|v: Seq<char>| v != u ==> m.insert(u, c1).insert(u, c2).contains_key(v)
            == m.contains_key(v),
        forall|v: Seq<char>| v != u && m.contains_key(v)
            ==> m.insert(u, c1).insert(u, c2)[v] == m[v],
{
}

} // verus!
