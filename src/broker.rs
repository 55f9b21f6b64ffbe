use vstd::prelude::*;
use std::collections::HashMap;

verus! {

broadcast use vstd::std_specs::hash::group_hash_axioms;

/// The pending table of a correlation broker: one reply slot per request id
/// still waiting for its reply.
pub struct PendingTable<T> {
    slots: HashMap<u64, T>,
}

impl<T> View for PendingTable<T> {
    type V = Map<u64, T>;

    closed spec fn view(&self) -> Map<u64, T> {
        self.slots@
    }
}

impl<T> PendingTable<T> {
    /// A table with no pending request.
    pub fn new() -> (r: Self)
        ensures
            r@ == Map::<u64, T>::empty(),
    {
        PendingTable { slots: HashMap::new() }
    }

    /// Registers `slot` under `id` unless `id` is already pending; tells
    /// whether it was registered.
    pub fn register(&mut self, id: u64, slot: T) -> (r: bool)
        ensures
            r == !old(self)@.contains_key(id),
            r ==> final(self)@ == old(self)@.insert(id, slot),
            !r ==> final(self)@ == old(self)@,
    {
        if self.slots.contains_key(&id) {
            false
        } else {
            self.slots.insert(id, slot);
            true
        }
    }

    /// Removes the entry of `id` and hands out its slot. Whoever removes an
    /// id first gets the slot; every later removal gets `None`.
    pub fn take(&mut self, id: u64) -> (r: Option<T>)
        ensures
            final(self)@ == old(self)@.remove(id),
            r matches Some(v) ==> old(self)@.contains_key(id) && v == old(self)@[id],
            r is None ==> !old(self)@.contains_key(id),
    {
        self.slots.remove(&id)
    }

    /// Whether `id` is waiting for its reply.
    pub fn is_pending(&self, id: u64) -> (r: bool)
        ensures
            r == self@.contains_key(id),
    {
        self.slots.contains_key(&id)
    }

    /// Number of requests waiting for their reply.
    pub fn len(&self) -> (r: usize)
        ensures
            r == self@.len(),
    {
        self.slots.len()
    }
}

/// What each removal in `events` hands out when they are applied, in order,
/// to a table that maps `pending`.
pub open spec fn routed<T>(pending: Map<u64, T>, events: Seq<u64>) -> Seq<Option<T>>
    decreases events.len(),
{
    if events.len() == 0 {
        Seq::empty()
    } else {
        let id = events[0];
        seq![if pending.contains_key(id) { Some(pending[id]) } else { None }] + routed(
            pending.remove(id),
            events.drop_first(),
        )
    }
}

/// Correlation: whatever the interleaving, a reply is handed to the slot
/// that was registered under its own id, and only when no earlier removal of
/// that id (a reply, or the caller giving up on a timeout) came first; a late
/// or repeated reply is dropped.
pub proof fn lemma_replies_reach_their_callers<T>(pending: Map<u64, T>, events: Seq<u64>, j: int)
    requires
        0 <= j < events.len(),
    ensures
        routed(pending, events).len() == events.len(),
        routed(pending, events)[j] == if pending.contains_key(events[j]) && forall|k: int|
            0 <= k < j ==> events[k] != events[j] {
            Some(pending[events[j]])
        } else {
            None::<T>
        },
    decreases events.len(),
{
    lemma_routed_len(pending, events);
    let id = events[0];
    let rest = events.drop_first();
    if j > 0 {
        lemma_replies_reach_their_callers(pending.remove(id), rest, j - 1);
        assert(rest[j - 1] == events[j]);
        if forall|k: int| 0 <= k < j ==> events[k] != events[j] {
            assert(events[0] != events[j]);
            assert forall|k: int| 0 <= k < j - 1 implies #[trigger] rest[k] != rest[j - 1] by {
                assert(rest[k] == events[k + 1]);
            }
        } else {
            let k = choose|k: int| 0 <= k < j && events[k] == events[j];
            if k > 0 {
                assert(rest[k - 1] == events[k]);
            }
        }
    }
}

proof fn lemma_routed_len<T>(pending: Map<u64, T>, events: Seq<u64>)
    ensures
        routed(pending, events).len() == events.len(),
    decreases events.len(),
{
    if events.len() > 0 {
        lemma_routed_len(pending.remove(events[0]), events.drop_first());
    }
}

} // verus!
