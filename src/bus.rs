use vstd::prelude::*;
use crate::types::WsEvent;

verus! {

/// What one subscriber has waiting: its id, the events it has not yet
/// received (oldest first) and how many were dropped since its last receive.
pub struct QueueView {
    pub id: u64,
    pub pending: Seq<WsEvent>,
    pub skipped: nat,
}

/// The whole bus: the bound on each subscriber's pending events, the next
/// id to hand out and the subscribers in order of subscription.
pub struct BusView {
    pub capacity: nat,
    pub next_id: u64,
    pub queues: Seq<QueueView>,
}

/// The largest count of dropped events that a subscriber can report.
pub const MAX_SKIPPED: u64 = 0xffff_ffff_ffff_ffff;

/// A pending queue after `e` arrives: the oldest event leaves first when
/// the queue is full.
pub open spec fn enqueue(pending: Seq<WsEvent>, e: WsEvent, capacity: nat) -> Seq<WsEvent> {
    if pending.len() < capacity {
        pending.push(e)
    } else {
        pending.drop_first().push(e)
    }
}

/// The drop count after `e` arrives at a queue holding `pending`.
pub open spec fn skipped_after(pending: Seq<WsEvent>, skipped: nat, capacity: nat) -> nat {
    if pending.len() < capacity {
        skipped
    } else if skipped < MAX_SKIPPED {
        skipped + 1
    } else {
        skipped
    }
}

/// A subscriber's queue after `e` is published.
pub open spec fn deliver(q: QueueView, e: WsEvent, capacity: nat) -> QueueView {
    QueueView {
        id: q.id,
        pending: enqueue(q.pending, e, capacity),
        skipped: skipped_after(q.pending, q.skipped, capacity),
    }
}

impl BusView {
    pub open spec fn valid(&self) -> bool {
        &&& self.capacity > 0
        &&& forall|i: int|
            0 <= i < self.queues.len() ==> {
                &&& self.queues[i].pending.len() <= self.capacity
                &&& self.queues[i].id < self.next_id
                &&& self.queues[i].skipped <= MAX_SKIPPED
            }
        &&& forall|i: int, j: int|
            0 <= i < self.queues.len() && 0 <= j < self.queues.len() && i != j
                ==> self.queues[i].id != self.queues[j].id
    }

    /// Whether a subscriber with id `id` is subscribed.
    pub open spec fn has(&self, id: u64) -> bool {
        exists|i: int| 0 <= i < self.queues.len() && self.queues[i].id == id
    }

    /// The bus after `e` is published: every subscriber gets it, and
    /// nothing else changes.
    pub open spec fn published(&self, e: WsEvent) -> BusView {
        BusView {
            capacity: self.capacity,
            next_id: self.next_id,
            queues: Seq::new(self.queues.len(), |i: int| deliver(self.queues[i], e, self.capacity)),
        }
    }
}

/// What a receive on one subscription gives.
#[derive(Debug)]
pub enum RecvOutcome {
    /// The oldest pending event.
    Event(WsEvent),
    /// Events were dropped because the subscriber fell behind: this many.
    Lagged(u64),
    /// Nothing is pending.
    Empty,
    /// No subscriber has this id (never subscribed, or unsubscribed).
    Closed,
}

struct Subscriber {
    id: u64,
    pending: Vec<WsEvent>,
    skipped: u64,
}

impl Subscriber {
    closed spec fn view(&self) -> QueueView {
        QueueView { id: self.id, pending: self.pending@, skipped: self.skipped as nat }
    }
}

/// A bounded broadcast bus: every event published reaches every current
/// subscriber, and a subscriber that does not keep up loses its oldest
/// pending events rather than holding the publisher back.
pub struct EventBus {
    capacity: usize,
    next_id: u64,
    subscribers: Vec<Subscriber>,
}

impl View for EventBus {
    type V = BusView;

    closed spec fn view(&self) -> BusView {
        BusView {
            capacity: self.capacity as nat,
            next_id: self.next_id,
            queues: Seq::new(self.subscribers@.len(), |i: int| self.subscribers@[i].view()),
        }
    }
}

impl EventBus {
    /// A bus with no subscribers, holding up to `capacity` pending events
    /// for each subscriber.
    pub fn new(capacity: usize) -> (r: EventBus)
        requires
            capacity > 0,
        ensures
            r@.valid(),
            r@.capacity == capacity,
            r@.next_id == 0,
            r@.queues.len() == 0,
    {
        EventBus { capacity, next_id: 0, subscribers: Vec::new() }
    }

    /// The number of current subscribers.
    pub fn subscriber_count(&self) -> (r: usize)
        ensures
            r == self@.queues.len(),
    {
        self.subscribers.len()
    }

    /// Registers a new subscriber, whose queue starts empty: it receives
    /// only what is published from now on. Returns `None`, changing
    /// nothing, once every id has been handed out.
    pub fn subscribe(&mut self) -> (r: Option<u64>)
        requires
            old(self)@.valid(),
        ensures
            final(self)@.valid(),
            old(self)@.next_id == MAX_SKIPPED ==> r is None && final(self)@ == old(self)@,
            old(self)@.next_id < MAX_SKIPPED ==> {
                &&& r == Some(old(self)@.next_id)
                &&& final(self)@ == (BusView {
                    capacity: old(self)@.capacity,
                    next_id: (old(self)@.next_id + 1) as u64,
                    queues: old(self)@.queues.push(
                        QueueView { id: old(self)@.next_id, pending: Seq::empty(), skipped: 0 },
                    ),
                })
            },
    {
        if self.next_id == MAX_SKIPPED {
            return None;
        }
        let id = self.next_id;
        self.subscribers.push(Subscriber { id, pending: Vec::new(), skipped: 0 });
        self.next_id = id + 1;
        proof {
            assert(self@.queues =~= old(self)@.queues.push(
                QueueView { id, pending: Seq::empty(), skipped: 0 },
            ));
        }
        Some(id)
    }

    /// Hands `e` to every current subscriber. Never fails and never waits:
    /// a full queue drops its oldest event and counts the drop, and the
    /// other subscribers are not affected.
    pub fn publish(&mut self, e: &WsEvent)
        requires
            old(self)@.valid(),
        ensures
            final(self)@.valid(),
            final(self)@ == old(self)@.published(*e),
    {
        let n = self.subscribers.len();
        let cap = self.capacity;
        let mut i: usize = 0;
        while i < n
            invariant
                n == self.subscribers@.len(),
                cap == self.capacity,
                cap > 0,
                0 <= i <= n,
                self.capacity == old(self).capacity,
                self.next_id == old(self).next_id,
                old(self)@.valid(),
                forall|j: int| 0 <= j < i ==> self@.queues[j] == deliver(old(self)@.queues[j], *e, cap as nat),
                forall|j: int| i <= j < n ==> self@.queues[j] == old(self)@.queues[j],
            decreases n - i,
        {
            let ghost before = self.subscribers@;
            let ghost bv = self@;
            let ghost q = self@.queues[i as int];
            assert(q == old(self)@.queues[i as int]);
            let sub = &mut self.subscribers[i];
            if sub.pending.len() >= cap {
                sub.pending.remove(0);
                if sub.skipped < MAX_SKIPPED {
                    sub.skipped = sub.skipped + 1;
                }
            }
            sub.pending.push(e.duplicate());
            proof {
                assert(self.subscribers@ =~= before.update(i as int, self.subscribers@[i as int]));
                if q.pending.len() >= cap {
                    assert(q.pending.remove(0) =~= q.pending.drop_first());
                }
                assert(self@.queues[i as int].pending =~= enqueue(q.pending, *e, cap as nat));
                assert(self@.queues[i as int] == deliver(q, *e, cap as nat));
                assert forall|j: int| 0 <= j < n && j != i implies self@.queues[j] == bv.queues[j] by {
                    assert(self.subscribers@[j] == before[j]);
                }
                assert forall|j: int| 0 <= j < i + 1 implies self@.queues[j] == deliver(
                    old(self)@.queues[j],
                    *e,
                    cap as nat,
                ) by {
                    if j < i {
                        assert(self@.queues[j] == bv.queues[j]);
                    }
                }
            }
            i = i + 1;
        }
        proof {
            assert(self@.queues =~= old(self)@.published(*e).queues);
        }
    }

    /// Takes what is next for subscriber `id`: first a report of dropped
    /// events, if any were dropped since the last receive, then the oldest
    /// pending event.
    pub fn try_recv(&mut self, id: u64) -> (r: RecvOutcome)
        requires
            old(self)@.valid(),
        ensures
            final(self)@.valid(),
            final(self)@.capacity == old(self)@.capacity,
            final(self)@.next_id == old(self)@.next_id,
            final(self)@.queues.len() == old(self)@.queues.len(),
            !old(self)@.has(id) ==> r is Closed && final(self)@ == old(self)@,
            forall|i: int|
                0 <= i < old(self)@.queues.len() && old(self)@.queues[i].id != id
                    ==> final(self)@.queues[i] == old(self)@.queues[i],
            forall|i: int|
                #![trigger old(self)@.queues[i]]
                0 <= i < old(self)@.queues.len() && old(self)@.queues[i].id == id ==> {
                    let q = old(self)@.queues[i];
                    if q.skipped > 0 {
                        &&& r == RecvOutcome::Lagged(q.skipped as u64)
                        &&& final(self)@.queues[i] == QueueView { id, pending: q.pending, skipped: 0 }
                    } else if q.pending.len() == 0 {
                        &&& r is Empty
                        &&& final(self)@.queues[i] == q
                    } else {
                        &&& r == RecvOutcome::Event(q.pending[0])
                        &&& final(self)@.queues[i] == QueueView { id, pending: q.pending.drop_first(), skipped: 0 }
                    }
                },
    {
        let n = self.subscribers.len();
        let mut i: usize = 0;
        while i < n
            invariant
                n == self.subscribers@.len(),
                0 <= i <= n,
                *self == *old(self),
                old(self)@.valid(),
                forall|j: int| 0 <= j < i ==> self@.queues[j].id != id,
            decreases n - i,
        {
            if self.subscribers[i].id == id {
                let ghost before = self@;
                let ghost before_subs = self.subscribers@;
                proof { lemma_unique_position(before, i as int, id); }
                let sub = &mut self.subscribers[i];
                let r = if sub.skipped > 0 {
                    let k = sub.skipped;
                    sub.skipped = 0;
                    RecvOutcome::Lagged(k)
                } else if sub.pending.len() == 0 {
                    RecvOutcome::Empty
                } else {
                    RecvOutcome::Event(sub.pending.remove(0))
                };
                proof {
                    assert(self.subscribers@ =~= before_subs.update(i as int, self.subscribers@[i as int]));
                    assert forall|j: int| 0 <= j < n && j != i implies self@.queues[j] == before.queues[j] by {
                        assert(self.subscribers@[j] == before_subs[j]);
                    }
                    let q = before.queues[i as int];
                    if q.skipped == 0 && q.pending.len() > 0 {
                        assert(q.pending.remove(0) =~= q.pending.drop_first());
                    }
                    assert(self@.queues[i as int].id == q.id);
                    assert(self@.queues[i as int].pending.len() <= q.pending.len());
                    assert forall|j: int| 0 <= j < n implies #[trigger] self@.queues[j].id == before.queues[j].id by {}
                    assert forall|j: int| 0 <= j < n implies {
                        &&& (#[trigger] self@.queues[j]).pending.len() <= self@.capacity
                        &&& self@.queues[j].id < self@.next_id
                        &&& self@.queues[j].skipped <= MAX_SKIPPED
                    } by {
                        if j != i {
                            assert(self@.queues[j] == before.queues[j]);
                        }
                    }
                    assert(self@.queues.len() == before.queues.len());
                }
                return r;
            }
            i = i + 1;
        }
        RecvOutcome::Closed
    }

    /// Removes subscriber `id`, and with it everything it had pending.
    pub fn unsubscribe(&mut self, id: u64)
        requires
            old(self)@.valid(),
        ensures
            final(self)@.valid(),
            final(self)@.capacity == old(self)@.capacity,
            final(self)@.next_id == old(self)@.next_id,
            !final(self)@.has(id),
            forall|i: int| 0 <= i < old(self)@.queues.len() && old(self)@.queues[i].id == id
                ==> final(self)@.queues == old(self)@.queues.remove(i),
            !old(self)@.has(id) ==> final(self)@ == old(self)@,
    {
        let n = self.subscribers.len();
        let mut i: usize = 0;
        while i < n
            invariant
                n == self.subscribers@.len(),
                0 <= i <= n,
                *self == *old(self),
                old(self)@.valid(),
                forall|j: int| 0 <= j < i ==> self@.queues[j].id != id,
            decreases n - i,
        {
            if self.subscribers[i].id == id {
                proof {
                    lemma_unique_position(old(self)@, i as int, id);
                    assert(old(self)@.queues[i as int].id == id);
                    assert(old(self)@.has(id));
                }
                self.subscribers.remove(i);
                proof {
                    assert(self@.queues =~= old(self)@.queues.remove(i as int));
                    let qs = old(self)@.queues;
                    assert forall|j: int| 0 <= j < qs.len() - 1 implies
                        #[trigger] self@.queues[j] == (if j < i { qs[j] } else { qs[j + 1] }) by {}
                    assert forall|j: int| 0 <= j < self@.queues.len() implies self@.queues[j].id != id by {
                        if j >= i {
                            assert(qs[j + 1].id != id);
                        }
                    }
                }
                return;
            }
            i = i + 1;
        }
    }
}

proof fn lemma_unique_position(b: BusView, i: int, id: u64)
    requires
        b.valid(),
        0 <= i < b.queues.len(),
        b.queues[i].id == id,
    ensures
        forall|j: int| 0 <= j < b.queues.len() && j != i ==> b.queues[j].id != id,
{
}

} // verus!
