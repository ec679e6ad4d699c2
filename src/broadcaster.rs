use vstd::prelude::*;
use std::collections::VecDeque;
use crate::events::BroadcastMessage;

verus! {

broadcast use vstd::std_specs::vecdeque::group_vec_dequeue_axioms;

/// What a broadcaster has done so far: its capacity and every event ever
/// published, oldest first.
pub struct BroadcastModel {
    pub capacity: nat,
    pub history: Seq<BroadcastMessage>,
}

/// Position in the history of the oldest event still buffered.
pub open spec fn retained_start(m: BroadcastModel) -> nat {
    if m.history.len() <= m.capacity {
        0
    } else {
        (m.history.len() - m.capacity) as nat
    }
}

/// The model after one more publish.
pub open spec fn published(m: BroadcastModel, e: BroadcastMessage) -> BroadcastModel {
    BroadcastModel { history: m.history.push(e), ..m }
}

/// The model after publishing `es` in order.
pub open spec fn published_all(m: BroadcastModel, es: Seq<BroadcastMessage>) -> BroadcastModel {
    BroadcastModel { history: m.history + es, ..m }
}

/// Outcome of one read from a subscription.
#[derive(Debug)]
pub enum Delivery {
    /// The next event in publication order.
    Message(BroadcastMessage),
    /// This many events were evicted before they were read; the next read
    /// resumes from the oldest event still buffered.
    Lagged(u64),
    /// Nothing newer has been published yet.
    Empty,
}

/// What a read at history position `pos` yields, and the position after it.
pub open spec fn read_at(m: BroadcastModel, pos: nat) -> (Delivery, nat) {
    if pos >= m.history.len() {
        (Delivery::Empty, pos)
    } else if pos < retained_start(m) {
        (Delivery::Lagged((retained_start(m) - pos) as u64), retained_start(m))
    } else {
        (Delivery::Message(m.history[pos as int]), pos + 1)
    }
}

/// The outcomes of `k` successive reads starting at `pos`.
pub open spec fn reads(m: BroadcastModel, pos: nat, k: nat) -> Seq<Delivery>
    decreases k,
{
    if k == 0 {
        Seq::empty()
    } else {
        seq![read_at(m, pos).0] + reads(m, read_at(m, pos).1, (k - 1) as nat)
    }
}

/// A subscriber's read position: the index in the broadcaster's history of
/// the next event it will read.
#[derive(Debug)]
pub struct Subscription {
    pub next: u64,
}

/// Bounded, lossy fan-out of events. The last `capacity` events are
/// buffered; a subscriber that falls further behind is told how many it
/// missed and moves on to the oldest buffered event. Publishing never blocks
/// and never fails.
pub struct EventBroadcaster {
    capacity: usize,
    buffer: VecDeque<BroadcastMessage>,
    count: u64,
    history: Ghost<Seq<BroadcastMessage>>,
}

impl View for EventBroadcaster {
    type V = BroadcastModel;

    closed spec fn view(&self) -> BroadcastModel {
        BroadcastModel { capacity: self.capacity as nat, history: self.history@ }
    }
}

impl EventBroadcaster {
    pub closed spec fn wf(&self) -> bool {
        &&& self.capacity > 0
        &&& self.count == self.history@.len()
        &&& self.buffer@.len() == self.history@.len() - retained_start(self@)
        &&& self.buffer@ == self.history@.subrange(
            retained_start(self@) as int,
            self.history@.len() as int,
        )
    }

    /// What validity tells a caller: the buffer holds at least one event.
    pub proof fn lemma_wf_capacity(&self)
        requires
            self.wf(),
        ensures
            self@.capacity > 0,
    {
    }

    /// A broadcaster that buffers the last `capacity` events.
    pub fn new(capacity: usize) -> (r: EventBroadcaster)
        requires
            capacity > 0,
        ensures
            r.wf(),
            r@.capacity == capacity,
            r@.history == Seq::<BroadcastMessage>::empty(),
    {
        let r = EventBroadcaster {
            capacity,
            buffer: VecDeque::new(),
            count: 0,
            history: Ghost(Seq::empty()),
        };
        assert(r.buffer@ =~= r.history@.subrange(0, 0));
        r
    }

    /// Number of events published so far.
    pub fn published_count(&self) -> (r: u64)
        requires
            self.wf(),
        ensures
            r == self@.history.len(),
    {
        self.count
    }

    /// Publishes an event to all current and future subscribers, evicting the
    /// oldest buffered event when the buffer is full.
    pub fn broadcast(&mut self, message: BroadcastMessage)
        requires
            old(self).wf(),
            old(self)@.history.len() < u64::MAX,
        ensures
            final(self).wf(),
            final(self)@ == published(old(self)@, message),
    {
        let ghost old_model = self@;
        if self.buffer.len() == self.capacity {
            let _ = self.buffer.pop_front();
        }
        self.history = Ghost(self.history@.push(message));
        self.buffer.push_back(message);
        self.count = self.count + 1;
        assert(self.buffer@ =~= self.history@.subrange(
            retained_start(self@) as int,
            self.history@.len() as int,
        ));
    }

    /// A subscription that sees only events published from now on.
    pub fn subscribe(&self) -> (r: Subscription)
        requires
            self.wf(),
        ensures
            r.next == self@.history.len(),
    {
        Subscription { next: self.count }
    }

    /// Reads the next event for `sub`, or reports a lag or that nothing new
    /// is there.
    pub fn next(&self, sub: &mut Subscription) -> (r: Delivery)
        requires
            self.wf(),
            old(sub).next <= self@.history.len(),
        ensures
            (r, final(sub).next as nat) == read_at(self@, old(sub).next as nat),
            final(sub).next <= self@.history.len(),
    {
        let kept = self.buffer.len() as u64;
        let start = self.count - kept;
        if sub.next >= self.count {
            Delivery::Empty
        } else if sub.next < start {
            let missed = start - sub.next;
            sub.next = start;
            Delivery::Lagged(missed)
        } else {
            let i = (sub.next - start) as usize;
            let m = self.buffer[i].duplicate();
            sub.next = sub.next + 1;
            Delivery::Message(m)
        }
    }
}

/// The events of `es` as successful reads.
pub open spec fn as_deliveries(es: Seq<BroadcastMessage>) -> Seq<Delivery> {
    es.map_values(|e: BroadcastMessage| Delivery::Message(e))
}

/// From a position at or after the oldest buffered event, the reads up to
/// the end of the history return exactly the events from that position on.
pub proof fn lemma_reads_from_buffered(m: BroadcastModel, pos: nat)
    requires
        retained_start(m) <= pos <= m.history.len(),
    ensures
        reads(m, pos, (m.history.len() - pos) as nat) == as_deliveries(
            m.history.subrange(pos as int, m.history.len() as int),
        ),
    decreases m.history.len() - pos,
{
    let rest = m.history.subrange(pos as int, m.history.len() as int);
    if pos < m.history.len() {
        lemma_reads_from_buffered(m, pos + 1);
        let tail = m.history.subrange(pos as int + 1, m.history.len() as int);
        assert(rest =~= seq![m.history[pos as int]] + tail);
        assert(as_deliveries(rest) =~= seq![Delivery::Message(m.history[pos as int])] + as_deliveries(tail));
    } else {
        assert(as_deliveries(rest) =~= Seq::<Delivery>::empty());
    }
}

/// A subscriber of a broadcaster with capacity N that reads nothing while
/// N + 5 events are published is first told that it missed 5, and then reads
/// exactly the last N of them, in publication order.
pub proof fn lemma_lagging_reader_gets_latest(m: BroadcastModel, es: Seq<BroadcastMessage>)
    requires
        m.capacity > 0,
        es.len() == m.capacity + 5,
    ensures
        reads(published_all(m, es), m.history.len(), m.capacity + 1) == seq![Delivery::Lagged(5)]
            + as_deliveries(es.subrange(5, es.len() as int)),
{
    let m2 = published_all(m, es);
    let pos = m.history.len();
    let start = retained_start(m2);
    assert(start == pos + 5);
    assert(read_at(m2, pos) == (Delivery::Lagged(5), start));
    lemma_reads_from_buffered(m2, start);
    assert(m2.history.subrange(start as int, m2.history.len() as int) =~= es.subrange(5, es.len() as int));
    assert(m2.history.len() - start == m.capacity);
    assert(reads(m2, pos, m.capacity + 1) == seq![Delivery::Lagged(5)] + reads(m2, start, m.capacity));
}

/// Two subscribers, one before `es1` is published and one after it, each
/// read exactly the events published after their own subscription, in
/// order, and then find nothing more (no event was evicted in between).
pub proof fn lemma_subscribers_see_only_later_events(
    m: BroadcastModel,
    es1: Seq<BroadcastMessage>,
    es2: Seq<BroadcastMessage>,
)
    requires
        m.capacity > 0,
        es1.len() + es2.len() <= m.capacity,
    ensures
        ({
            let m2 = published_all(published_all(m, es1), es2);
            &&& reads(m2, m.history.len(), es1.len() + es2.len()) == as_deliveries(es1 + es2)
            &&& reads(m2, m.history.len() + es1.len(), es2.len()) == as_deliveries(es2)
            &&& read_at(m2, m2.history.len()).0 == Delivery::Empty
        }),
{
    let m2 = published_all(published_all(m, es1), es2);
    let first = m.history.len();
    let second = m.history.len() + es1.len();
    assert(m2.history =~= m.history + (es1 + es2));
    assert(retained_start(m2) <= first);
    lemma_reads_from_buffered(m2, first);
    lemma_reads_from_buffered(m2, second);
    assert(m2.history.subrange(first as int, m2.history.len() as int) =~= es1 + es2);
    assert(m2.history.subrange(second as int, m2.history.len() as int) =~= es2);
}

} // verus!
