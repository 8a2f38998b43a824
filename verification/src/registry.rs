//! One upstream client for each bot.
//!
//! The registry makes a client the first time a bot calls and hands out that
//! same client ever after: the client keeps the bot's rate limits, which are
//! only right when every request of the bot goes through it. Nothing is ever
//! removed.

use crate::identity::caller_of;
use std::collections::HashMap;
use vstd::prelude::*;

verus! {

broadcast use vstd::std_specs::hash::group_hash_axioms;

/// The clients made so far, each in a slot of its own, and the slot of each
/// bot that has called.
pub struct ClientRegistry<H> {
    slots: HashMap<u64, usize>,
    handles: Vec<H>,
}

/// The registry after a call for `identity`: as it was where the bot was
/// known, with the newly made client under `identity` where it was not.
pub open spec fn with_handle<H>(registry: Map<u64, H>, identity: u64, made: H) -> Map<u64, H> {
    if registry.contains_key(identity) {
        registry
    } else {
        registry.insert(identity, made)
    }
}

impl<H> View for ClientRegistry<H> {
    type V = Map<u64, H>;

    /// The client of each bot that has called.
    closed spec fn view(&self) -> Map<u64, H> {
        Map::new(
            |identity: u64| self.slots@.contains_key(identity),
            |identity: u64| self.handles@[self.slots@[identity] as int],
        )
    }
}

impl<H> ClientRegistry<H> {
    /// Every bot's slot holds a client, and no two bots share a slot.
    pub closed spec fn wf(&self) -> bool {
        &&& forall|identity: u64| #[trigger]
            self.slots@.contains_key(identity) ==> self.slots@[identity] < self.handles@.len()
        &&& forall|first: u64, second: u64|
            #![trigger self.slots@[first], self.slots@[second]]
            self.slots@.contains_key(first) && self.slots@.contains_key(second) && first
                != second ==> self.slots@[first] != self.slots@[second]
    }

    /// The slot that holds the client of `identity`.
    pub closed spec fn slot_of(&self, identity: u64) -> int {
        self.slots@[identity] as int
    }

    /// The clients in the order in which they were made.
    pub closed spec fn handles(&self) -> Seq<H> {
        self.handles@
    }

    /// A registry without clients.
    pub fn new() -> (registry: Self)
        ensures
            registry@ == Map::<u64, H>::empty(),
            registry.handles().len() == 0,
            registry.wf(),
    {
        let registry = ClientRegistry { slots: HashMap::new(), handles: Vec::new() };
        assert(registry@ =~= Map::<u64, H>::empty());
        registry
    }

    /// How many clients have been made.
    pub fn len(&self) -> (count: usize)
        ensures
            count == self.handles().len(),
    {
        self.handles.len()
    }

    /// The client of `identity`, where that bot has called before.
    pub fn get(&self, identity: u64) -> (found: Option<&H>)
        requires
            self.wf(),
        ensures
            match found {
                Some(handle) => self@.contains_key(identity) && *handle == self@[identity],
                None => !self@.contains_key(identity),
            },
    {
        match self.slots.get(&identity) {
            Some(slot) => Some(&self.handles[*slot]),
            None => None,
        }
    }

    /// The slot of the client of `identity`, where that bot has called before.
    pub fn slot(&self, identity: u64) -> (found: Option<usize>)
        ensures
            match found {
                Some(slot) => self@.contains_key(identity) && slot == self.slot_of(identity),
                None => !self@.contains_key(identity),
            },
    {
        match self.slots.get(&identity) {
            Some(slot) => Some(*slot),
            None => None,
        }
    }

    /// The client of `identity`; made by `make` from `credential` where that
    /// bot calls for the first time, and kept for every later call.
    ///
    /// `make` is called only for a bot that has no client yet. What was there
    /// before the call stays where it was. The call has the registry to
    /// itself, so that two first calls of one bot cannot both make a client.
    pub fn get_or_create<F: FnOnce(&str) -> H>(
        &mut self,
        identity: u64,
        credential: &str,
        make: F,
    ) -> (handle: &H)
        requires
            old(self).wf(),
            call_requires(make, (credential,)),
        ensures
            final(self).wf(),
            final(self)@ == with_handle(old(self)@, identity, *handle),
            final(self)@.contains_key(identity),
            *handle == final(self)@[identity],
            !old(self)@.contains_key(identity) ==> call_ensures(make, (credential,), *handle),
            old(self)@.contains_key(identity) ==> final(self).handles() == old(self).handles(),
            !old(self)@.contains_key(identity) ==> {
                &&& final(self).handles() == old(self).handles().push(*handle)
                &&& final(self).slot_of(identity) == old(self).handles().len()
            },
            forall|other: u64| #[trigger]
                old(self)@.contains_key(other) ==> final(self).slot_of(other) == old(self).slot_of(
                    other,
                ),
    {
        let known = match self.slots.get(&identity) {
            Some(slot) => Some(*slot),
            None => None,
        };
        let slot = match known {
            Some(slot) => slot,
            None => {
                let handle = make(credential);
                let slot = self.handles.len();
                self.handles.push(handle);
                self.slots.insert(identity, slot);
                slot
            },
        };
        assert(final(self)@ =~= with_handle(old(self)@, identity, self.handles@[slot as int]));
        &self.handles[slot]
    }

    /// No two bots share a client: their clients stand in different slots.
    pub proof fn lemma_distinct_handles(&self, first: u64, second: u64)
        requires
            self.wf(),
            self@.contains_key(first),
            self@.contains_key(second),
            first != second,
        ensures
            self.slot_of(first) != self.slot_of(second),
            0 <= self.slot_of(first) < self.handles().len(),
            self@[first] == self.handles()[self.slot_of(first)],
    {
    }
}

/// A bot gets the same client at every call: once it is known, a further call
/// for it changes nothing and hands out what the first call made, whatever
/// the second call would have made.
pub proof fn lemma_same_handle_again<H>(registry: Map<u64, H>, identity: u64, first: H, second: H)
    ensures
        with_handle(registry, identity, first).contains_key(identity),
        with_handle(with_handle(registry, identity, first), identity, second) == with_handle(
            registry,
            identity,
            first,
        ),
{
}

/// Whatever credentials a bot presents, as long as they carry the same
/// identity, it gets the client that its first call made.
pub proof fn lemma_one_client_per_bot<H>(
    registry: Map<u64, H>,
    first: Seq<u8>,
    second: Seq<u8>,
    made_first: H,
    made_second: H,
)
    requires
        caller_of(Some(first)) is Ok,
        caller_of(Some(first)) == caller_of(Some(second)),
    ensures
        ({
            let identity = caller_of(Some(first))->Ok_0;
            let after_first = with_handle(registry, identity, made_first);
            let after_second = with_handle(
                after_first,
                caller_of(Some(second))->Ok_0,
                made_second,
            );
            &&& after_first.contains_key(identity)
            &&& after_second == after_first
            &&& after_second[identity] == after_first[identity]
        }),
{
}

/// A call for one bot leaves the client of every other bot as it was.
pub proof fn lemma_other_handles_stay<H>(registry: Map<u64, H>, identity: u64, made: H, other: u64)
    requires
        other != identity,
    ensures
        with_handle(registry, identity, made).contains_key(other) == registry.contains_key(other),
        registry.contains_key(other) ==> with_handle(registry, identity, made)[other]
            == registry[other],
{
}

/// The registry only grows: every bot that was known stays known, with the
/// client it had.
pub proof fn lemma_registry_grows<H>(registry: Map<u64, H>, identity: u64, made: H)
    ensures
        registry.submap_of(with_handle(registry, identity, made)),
{
}

} // verus!
