use vstd::prelude::*;
use crate::bus::{deliver, enqueue, BusView, QueueView};
use crate::live::{action_for, next_phase, SyncAction, SyncInput, SyncPhase};
use crate::service::{create_outcome, update_outcome, update_publishes, RepoError, ServiceError};
use crate::types::{Profile, UpdateProfileRequest, WsEvent};

verus! {

/// The bus after `es` is published, one event after the other.
pub open spec fn published_all(b: BusView, es: Seq<WsEvent>) -> BusView
    decreases es.len(),
{
    if es.len() == 0 {
        b
    } else {
        published_all(b, es.drop_last()).published(es.last())
    }
}

/// Publishing keeps the bus valid and keeps its subscribers and their ids.
pub proof fn lemma_published_valid(b: BusView, e: WsEvent)
    requires
        b.valid(),
    ensures
        b.published(e).valid(),
        b.published(e).capacity == b.capacity,
        b.published(e).queues.len() == b.queues.len(),
        forall|i: int| 0 <= i < b.queues.len() ==> #[trigger] b.published(e).queues[i].id == b.queues[i].id,
{
    let c = b.published(e);
    assert forall|i: int| 0 <= i < c.queues.len() implies c.queues[i] == deliver(b.queues[i], e, b.capacity) by {}
}

/// Nothing published after a subscription is lost while the subscriber
/// keeps room for it: its queue then holds what it had, followed by every
/// published event in publish order.
pub proof fn lemma_published_after_subscribe_retained(b: BusView, i: int, es: Seq<WsEvent>)
    requires
        b.valid(),
        0 <= i < b.queues.len(),
        b.queues[i].pending.len() + es.len() <= b.capacity,
    ensures
        published_all(b, es).valid(),
        published_all(b, es).queues.len() == b.queues.len(),
        published_all(b, es).queues[i] == (QueueView {
            id: b.queues[i].id,
            pending: b.queues[i].pending + es,
            skipped: b.queues[i].skipped,
        }),
    decreases es.len(),
{
    if es.len() == 0 {
        assert(b.queues[i].pending + es =~= b.queues[i].pending);
    } else {
        let prev = es.drop_last();
        lemma_published_after_subscribe_retained(b, i, prev);
        let c = published_all(b, prev);
        lemma_published_valid(c, es.last());
        assert(c.published(es.last()).queues[i] == deliver(c.queues[i], es.last(), c.capacity));
        assert(c.capacity == b.capacity) by {
            lemma_capacity_kept(b, prev);
        }
        assert((b.queues[i].pending + prev).push(es.last()) =~= b.queues[i].pending + es);
    }
}

/// Publishing never changes the bound of the queues.
pub proof fn lemma_capacity_kept(b: BusView, es: Seq<WsEvent>)
    requires
        b.valid(),
    ensures
        published_all(b, es).capacity == b.capacity,
        published_all(b, es).valid(),
        published_all(b, es).queues.len() == b.queues.len(),
    decreases es.len(),
{
    if es.len() > 0 {
        lemma_capacity_kept(b, es.drop_last());
        lemma_published_valid(published_all(b, es.drop_last()), es.last());
    }
}

/// A subscriber that was subscribed before a run of writes, and whose queue
/// does not overflow, sees exactly one event per write, in write order.
pub proof fn lemma_every_write_observed(b: BusView, i: int, es: Seq<WsEvent>)
    requires
        b.valid(),
        0 <= i < b.queues.len(),
        b.queues[i].pending.len() == 0,
        b.queues[i].skipped == 0,
        es.len() <= b.capacity,
    ensures
        published_all(b, es).queues[i].pending == es,
        published_all(b, es).queues[i].pending.len() == es.len(),
        published_all(b, es).queues[i].skipped == 0,
{
    lemma_published_after_subscribe_retained(b, i, es);
    assert(b.queues[i].pending + es =~= es);
}

/// One published event reaches every subscriber that has room for it, at
/// the end of its queue, whatever the other subscribers hold: a full queue
/// elsewhere only loses its own oldest event.
pub proof fn lemma_publish_reaches_subscriber_with_room(b: BusView, i: int, e: WsEvent)
    requires
        b.valid(),
        0 <= i < b.queues.len(),
        b.queues[i].pending.len() < b.capacity,
    ensures
        b.published(e).queues[i].pending == b.queues[i].pending.push(e),
        b.published(e).queues[i].skipped == b.queues[i].skipped,
        forall|j: int| 0 <= j < b.queues.len() && b.queues[j].pending.len() == b.capacity
            ==> #[trigger] b.published(e).queues[j].pending == b.queues[j].pending.drop_first().push(e),
{
}

/// A slow subscriber holds nobody else back: what another subscriber's
/// queue becomes when an event is published depends on that queue alone,
/// whatever the slow one has pending or has dropped.
pub proof fn lemma_slow_subscriber_isolated(b1: BusView, b2: BusView, j: int, e: WsEvent)
    requires
        b1.capacity == b2.capacity,
        b1.queues.len() == b2.queues.len(),
        0 <= j < b1.queues.len(),
        b1.queues[j] == b2.queues[j],
    ensures
        b1.published(e).queues[j] == b2.published(e).queues[j],
        b1.published(e).queues[j].pending == enqueue(b1.queues[j].pending, e, b1.capacity),
{
}

/// When every subscriber is caught up, one published event reaches each of
/// them exactly once.
pub proof fn lemma_each_subscriber_receives_once(b: BusView, e: WsEvent)
    requires
        b.valid(),
        forall|k: int| 0 <= k < b.queues.len() ==> #[trigger] b.queues[k].pending.len() == 0 && b.queues[k].skipped == 0,
    ensures
        forall|k: int| 0 <= k < b.queues.len() ==> #[trigger] b.published(e).queues[k].pending == seq![e]
            && b.published(e).queues[k].skipped == 0,
{
    assert forall|k: int| 0 <= k < b.queues.len() implies #[trigger] b.published(e).queues[k].pending == seq![e]
        && b.published(e).queues[k].skipped == 0 by {
        assert(b.queues[k].pending.push(e) =~= seq![e]);
    }
}

/// A live connection asks for the snapshot only once its subscription is in
/// place, and streams only after the snapshot: any write that commits after
/// the subscription reaches the subscriber's queue, and any write before
/// the snapshot read is in the snapshot.
pub proof fn lemma_subscribe_before_snapshot(p: SyncPhase, x: SyncInput, a: SyncAction)
    requires
        action_for(p, x, a),
    ensures
        a is FetchSnapshot ==> p == SyncPhase::Connecting && x is Subscribed,
        next_phase(p, x) == SyncPhase::AwaitingSnapshot ==> (p == SyncPhase::Connecting && x is Subscribed)
            || p == SyncPhase::AwaitingSnapshot,
        next_phase(p, x) == SyncPhase::Streaming ==> p == SyncPhase::AwaitingSnapshot || p == SyncPhase::Streaming,
        a is Send && p != SyncPhase::Streaming ==> p == SyncPhase::AwaitingSnapshot && next_phase(p, x) == SyncPhase::Streaming,
{
}

/// An update that sets no field publishes nothing and hands back the record
/// as it was read, `updated_at` included.
pub proof fn lemma_empty_patch_is_silent(
    id: i64,
    patch: UpdateProfileRequest,
    written: Result<Option<Profile>, RepoError>,
)
    requires
        patch.spec_is_empty(),
    ensures
        !update_publishes(patch, update_outcome(id, patch, written)),
        written matches Ok(Some(p)) ==> (p.id == id ==> update_outcome(id, patch, written) == Ok::<
            Option<Profile>,
            ServiceError,
        >(Some(p))),
{
}

/// A creation for a user who already owns a profile is a conflict, and a
/// refused creation publishes nothing.
pub proof fn lemma_conflict_is_silent(user_id: i64, display_name: Seq<char>)
    requires
        display_name.len() > 0,
    ensures
        create_outcome(user_id, display_name, Err(RepoError::UniqueViolation)) == Err::<Profile, ServiceError>(
            ServiceError::Conflict,
        ),
{
}

} // verus!
