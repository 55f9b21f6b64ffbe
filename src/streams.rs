use vstd::prelude::*;
use crate::broker::{lemma_replies_reach_their_callers, routed, PendingTable};
use crate::policy::{exit_status_from, reported_status};
use crate::signals::SshStreamExit;

verus! {

/// Streams that are running, by id, each with the handle of its task.
/// Ids are minted from 1 upwards.
pub struct StreamRegistry<T> {
    next_stream_id: u64,
    tasks: PendingTable<T>,
}

/// Whether an exit event is the synthetic one of a cancelled stream.
pub open spec fn is_cancel_exit(e: SshStreamExit, stream_id: u64) -> bool {
    &&& e.stream_id == stream_id
    &&& e.exit_status == -1
    &&& e.error matches Some(m) && m@ == "cancelled"@
}

impl<T> StreamRegistry<T> {
    /// The id the next stream will get.
    pub closed spec fn next_id(&self) -> u64 {
        self.next_stream_id
    }

    /// The running streams and their task handles.
    pub closed spec fn active(&self) -> Map<u64, T> {
        self.tasks@
    }

    /// No running stream; the first id is 1.
    pub fn new() -> (r: Self)
        ensures
            r.next_id() == 1,
            r.active() == Map::<u64, T>::empty(),
    {
        StreamRegistry { next_stream_id: 1, tasks: PendingTable::new() }
    }

    /// Whether another id can be minted.
    pub fn can_mint(&self) -> (r: bool)
        ensures
            r == (self.next_id() < u64::MAX),
    {
        self.next_stream_id < u64::MAX
    }

    /// Mints the id of a new stream.
    pub fn mint_id(&mut self) -> (r: u64)
        requires
            old(self).next_id() < u64::MAX,
        ensures
            r == old(self).next_id(),
            final(self).next_id() == old(self).next_id() + 1,
            final(self).active() == old(self).active(),
    {
        let id = self.next_stream_id;
        self.next_stream_id = id + 1;
        id
    }

    /// Records the task of stream `stream_id` unless that id is already
    /// running; tells whether it was recorded.
    pub fn register(&mut self, stream_id: u64, handle: T) -> (r: bool)
        ensures
            r == !old(self).active().contains_key(stream_id),
            r ==> final(self).active() == old(self).active().insert(stream_id, handle),
            !r ==> final(self).active() == old(self).active(),
            final(self).next_id() == old(self).next_id(),
    {
        self.tasks.register(stream_id, handle)
    }

    /// Whether stream `stream_id` is running.
    pub fn is_running(&self, stream_id: u64) -> (r: bool)
        ensures
            r == self.active().contains_key(stream_id),
    {
        self.tasks.is_pending(stream_id)
    }

    /// Cancels stream `stream_id`: when it is running, removes it and hands
    /// out its task, to be aborted, with the synthetic exit event to emit;
    /// otherwise nothing happens.
    pub fn cancel(&mut self, stream_id: u64) -> (r: Option<(T, SshStreamExit)>)
        ensures
            final(self).active() == old(self).active().remove(stream_id),
            final(self).next_id() == old(self).next_id(),
            r is Some <==> old(self).active().contains_key(stream_id),
            r matches Some((h, e)) ==> h == old(self).active()[stream_id] && is_cancel_exit(
                e,
                stream_id,
            ),
    {
        match self.tasks.take(stream_id) {
            Some(h) => Some((h, cancelled_exit(stream_id))),
            None => None,
        }
    }

    /// Ends stream `stream_id` on its own: when it is still registered,
    /// removes it and yields its exit event; when a cancel came first, yields
    /// nothing, so the stream never emits two exit events.
    pub fn finish(&mut self, stream_id: u64, status: Result<u32, String>) -> (r: Option<
        SshStreamExit,
    >)
        ensures
            final(self).active() == old(self).active().remove(stream_id),
            final(self).next_id() == old(self).next_id(),
            r is Some <==> old(self).active().contains_key(stream_id),
            r matches Some(e) ==> e.stream_id == stream_id && match status {
                Ok(code) => e.exit_status as int == reported_status(code as int) && e.error
                    is None,
                Err(m) => e.exit_status == -1 && e.error == Some(m),
            },
    {
        match self.tasks.take(stream_id) {
            Some(_) => Some(stream_exit(stream_id, status)),
            None => None,
        }
    }
}

/// The synthetic exit event of a cancelled stream.
pub fn cancelled_exit(stream_id: u64) -> (r: SshStreamExit)
    ensures
        is_cancel_exit(r, stream_id),
{
    SshStreamExit { stream_id, exit_status: -1, error: Some(String::from_str("cancelled")) }
}

/// The exit event of a stream whose command ended with `status`: its code
/// coerced to `i32`, or its error with status -1.
pub fn stream_exit(stream_id: u64, status: Result<u32, String>) -> (r: SshStreamExit)
    ensures
        r.stream_id == stream_id,
        match status {
            Ok(code) => r.exit_status as int == reported_status(code as int) && r.error is None,
            Err(m) => r.exit_status == -1 && r.error == Some(m),
        },
{
    match status {
        Ok(code) => SshStreamExit { stream_id, exit_status: exit_status_from(code), error: None },
        Err(m) => SshStreamExit { stream_id, exit_status: -1, error: Some(m) },
    }
}

/// One exit per stream: `cancel` and `finish` each remove their stream and
/// emit an exit event exactly when it was still running. Over any sequence
/// of such terminations, applied in order from the running streams `active`,
/// the first termination of a running stream emits its exit event, and every
/// later one of the same stream (a second cancel, or a natural exit after a
/// cancel) emits none.
pub proof fn lemma_one_exit_per_stream<T>(active: Map<u64, T>, ends: Seq<u64>, i: int, j: int)
    requires
        0 <= i < ends.len(),
        0 <= j < ends.len(),
        i < j,
        ends[i] == ends[j],
    ensures
        routed(active, ends)[j] is None,
        active.contains_key(ends[i]) && (forall|k: int| 0 <= k < i ==> ends[k] != ends[i])
            ==> routed(active, ends)[i] is Some,
{
    lemma_replies_reach_their_callers(active, ends, i);
    lemma_replies_reach_their_callers(active, ends, j);
}

} // verus!
