use vstd::prelude::*;
use crate::errors::AppError;
use crate::models::BroadcastMessage;

verus! {

/// How many published events the hub keeps for subscribers that have not
/// read them yet.
pub const HUB_CAPACITY: usize = 100;

/// The abstract state of a hub: the sequence number of the oldest buffered
/// event, the buffered events oldest first, and the number of open
/// subscriptions.
pub struct HubView {
    pub first: int,
    pub events: Seq<BroadcastMessage>,
    pub receivers: nat,
}

/// What one read from a subscription yields.
#[derive(Debug, Clone, PartialEq, Eq)]
pub enum RecvOutcome {
    /// The next event in publication order.
    Event(BroadcastMessage),
    /// This many events were evicted before the subscription read them; the
    /// subscription now continues at the oldest buffered event.
    Lagged(u64),
    /// Nothing has been published since the last read.
    Empty,
}

impl HubView {
    /// The sequence number that the next published event will get.
    pub open spec fn next_seq(self) -> int {
        self.first + self.events.len()
    }

    /// The buffer holds at most HUB_CAPACITY events and every count fits in
    /// a `u64`.
    pub open spec fn well_formed(self) -> bool {
        &&& 0 <= self.first
        &&& self.events.len() <= HUB_CAPACITY
        &&& self.next_seq() <= u64::MAX
        &&& self.receivers <= u64::MAX
    }

    /// The hub after publishing `msg`: refused while no subscription is open;
    /// otherwise appended, the oldest event giving way when the buffer is full.
    pub open spec fn publish(self, msg: BroadcastMessage) -> HubView {
        if self.receivers == 0 {
            self
        } else if self.events.len() < HUB_CAPACITY {
            HubView { events: self.events.push(msg), ..self }
        } else {
            HubView { first: self.first + 1, events: self.events.push(msg).drop_first(), ..self }
        }
    }

    /// The hub after publishing each of `msgs` in order.
    pub open spec fn publish_all(self, msgs: Seq<BroadcastMessage>) -> HubView
        decreases msgs.len(),
    {
        if msgs.len() == 0 {
            self
        } else {
            self.publish_all(msgs.drop_last()).publish(msgs.last())
        }
    }

    /// A read by the subscription whose cursor is `cursor`: the outcome and
    /// the cursor afterwards.
    pub open spec fn recv(self, cursor: int) -> (RecvOutcome, int) {
        if cursor < self.first {
            (RecvOutcome::Lagged((self.first - cursor) as u64), self.first)
        } else if cursor >= self.next_seq() {
            (RecvOutcome::Empty, cursor)
        } else {
            (RecvOutcome::Event(self.events[cursor - self.first]), cursor + 1)
        }
    }
}

/// A bounded broadcast buffer with a single publisher and independent
/// subscriptions, each reading at its own cursor.
pub struct Hub {
    buffer: Vec<BroadcastMessage>,
    first_seq: u64,
    receivers: u64,
}

/// A receive handle into a hub: the sequence number of the next event it
/// reads.
pub struct HubSubscription {
    next_seq: u64,
}

impl View for Hub {
    type V = HubView;

    closed spec fn view(&self) -> HubView {
        HubView { first: self.first_seq as int, events: self.buffer@, receivers: self.receivers as nat }
    }
}

impl HubSubscription {
    /// The sequence number of the next event this subscription reads.
    pub closed spec fn cursor(&self) -> int {
        self.next_seq as int
    }

    /// The sequence number of the next event this subscription reads.
    pub fn position(&self) -> (r: u64)
        ensures
            r == self.cursor(),
    {
        self.next_seq
    }
}

impl Hub {
    /// An empty hub with no subscriptions.
    pub fn new() -> (r: Hub)
        ensures
            r@ == (HubView { first: 0, events: Seq::empty(), receivers: 0 }),
            r@.well_formed(),
    {
        Hub { buffer: Vec::new(), first_seq: 0, receivers: 0 }
    }

    /// The number of open subscriptions.
    pub fn receiver_count(&self) -> (r: u64)
        ensures
            r == self@.receivers,
    {
        self.receivers
    }

    /// The sequence number that the next published event will get.
    pub fn next_seq(&self) -> (r: u64)
        requires
            self@.well_formed(),
        ensures
            r == self@.next_seq(),
    {
        self.first_seq + self.buffer.len() as u64
    }

    /// Opens a subscription that reads only what is published from now on.
    pub fn subscribe(&mut self) -> (s: HubSubscription)
        requires
            old(self)@.well_formed(),
            old(self)@.receivers < u64::MAX,
        ensures
            final(self)@ == (HubView { receivers: old(self)@.receivers + 1, ..old(self)@ }),
            final(self)@.well_formed(),
            s.cursor() == old(self)@.next_seq(),
    {
        self.receivers = self.receivers + 1;
        HubSubscription { next_seq: self.first_seq + self.buffer.len() as u64 }
    }

    /// Closes a subscription.
    pub fn unsubscribe(&mut self, sub: HubSubscription)
        requires
            old(self)@.well_formed(),
        ensures
            final(self)@ == (HubView {
                receivers: if old(self)@.receivers > 0 { (old(self)@.receivers - 1) as nat } else { 0 },
                ..old(self)@
            }),
            final(self)@.well_formed(),
    {
        if self.receivers > 0 {
            self.receivers = self.receivers - 1;
        }
    }

    /// Publishes an event to every open subscription. Fails, keeping
    /// nothing, while no subscription is open.
    pub fn publish(&mut self, msg: BroadcastMessage) -> (r: Result<(), AppError>)
        requires
            old(self)@.well_formed(),
            old(self)@.next_seq() < u64::MAX,
        ensures
            final(self)@ == old(self)@.publish(msg),
            final(self)@.well_formed(),
            r is Err <==> old(self)@.receivers == 0,
            r matches Err(e) ==> e == AppError::Broadcast,
    {
        if self.receivers == 0 {
            return Err(AppError::Broadcast);
        }
        if self.buffer.len() >= HUB_CAPACITY {
            self.buffer.remove(0);
            self.first_seq = self.first_seq + 1;
        }
        self.buffer.push(msg);
        proof {
            if old(self)@.events.len() >= HUB_CAPACITY {
                assert(self.buffer@ =~= old(self)@.events.push(msg).drop_first());
            }
        }
        Ok(())
    }

    /// Reads the next event for `sub`, or reports how many events it lost to
    /// eviction, or that nothing new has been published.
    pub fn recv(&self, sub: &mut HubSubscription) -> (r: RecvOutcome)
        requires
            self@.well_formed(),
        ensures
            (r, final(sub).cursor()) == self@.recv(old(sub).cursor()),
    {
        if sub.next_seq < self.first_seq {
            let lag = self.first_seq - sub.next_seq;
            sub.next_seq = self.first_seq;
            RecvOutcome::Lagged(lag)
        } else if sub.next_seq - self.first_seq >= self.buffer.len() as u64 {
            RecvOutcome::Empty
        } else {
            let idx = (sub.next_seq - self.first_seq) as usize;
            let ev = self.buffer[idx].duplicate();
            sub.next_seq = sub.next_seq + 1;
            RecvOutcome::Event(ev)
        }
    }
}

/// After a run of publications while a subscription is open, the buffer holds
/// the newest events of the old buffer followed by the run, at most
/// HUB_CAPACITY of them, and the sequence numbers advance by the run's length.
pub proof fn lemma_publish_all_window(h: HubView, msgs: Seq<BroadcastMessage>)
    requires
        h.events.len() <= HUB_CAPACITY,
        h.receivers > 0,
    ensures
        h.publish_all(msgs).receivers == h.receivers,
        h.publish_all(msgs).next_seq() == h.next_seq() + msgs.len(),
        h.publish_all(msgs).events.len() == if h.events.len() + msgs.len() <= HUB_CAPACITY {
            h.events.len() + msgs.len()
        } else {
            HUB_CAPACITY as nat
        },
        forall|j: int|
            0 <= j < h.publish_all(msgs).events.len() ==> #[trigger] h.publish_all(msgs).events[j]
                == (h.events + msgs)[j + h.events.len() + msgs.len() - h.publish_all(msgs).events.len()],
    decreases msgs.len(),
{
    if msgs.len() > 0 {
        let init = msgs.drop_last();
        let last = msgs.last();
        lemma_publish_all_window(h, init);
        let p = h.publish_all(init);
        let q = p.publish(last);
        let all = h.events + msgs;
        assert(all =~= (h.events + init).push(last));
        assert forall|j: int| 0 <= j < q.events.len() implies #[trigger] q.events[j]
            == all[j + h.events.len() + msgs.len() - q.events.len()] by {
            if p.events.len() < HUB_CAPACITY {
                if j < p.events.len() {
                    assert(q.events[j] == p.events[j]);
                }
            } else {
                assert(q.events[j] == p.events.push(last)[j + 1]);
            }
        }
    }
}

/// Every subscription that is open before a run of at most HUB_CAPACITY
/// publications reads each event of the run exactly once, in publication
/// order, and then finds nothing more.
pub proof fn lemma_all_delivered_in_order(h: HubView, msgs: Seq<BroadcastMessage>, cursor: int)
    requires
        h.well_formed(),
        h.receivers > 0,
        cursor == h.next_seq(),
        msgs.len() <= HUB_CAPACITY,
    ensures
        forall|k: int|
            0 <= k < msgs.len() ==> #[trigger] h.publish_all(msgs).recv(cursor + k) == (
            RecvOutcome::Event(msgs[k]),
            cursor + k + 1,
            ),
        h.publish_all(msgs).recv(cursor + msgs.len()) == (RecvOutcome::Empty, cursor + msgs.len()),
{
    lemma_publish_all_window(h, msgs);
    let r = h.publish_all(msgs);
    assert forall|k: int| 0 <= k < msgs.len() implies #[trigger] r.recv(cursor + k) == (
    RecvOutcome::Event(msgs[k]),
    cursor + k + 1,
    ) by {
        let j = cursor + k - r.first;
        assert(r.events[j] == (h.events + msgs)[j + h.events.len() + msgs.len() - r.events.len()]);
        assert(j + h.events.len() + msgs.len() - r.events.len() == h.events.len() + k);
    }
}

/// A subscription never reads an event that was published before it was
/// opened: whatever it reads from its opening cursor on is the event of the
/// later run at that position.
pub proof fn lemma_no_replay(h: HubView, msgs: Seq<BroadcastMessage>, cursor: int)
    requires
        h.well_formed(),
        h.receivers > 0,
        cursor >= h.next_seq(),
    ensures
        h.publish_all(msgs).recv(cursor).1 >= cursor,
        h.publish_all(msgs).recv(cursor).0 matches RecvOutcome::Event(e) ==> cursor - h.next_seq()
            < msgs.len() && e == msgs[cursor - h.next_seq()],
{
    lemma_publish_all_window(h, msgs);
    let r = h.publish_all(msgs);
    if cursor >= r.first && cursor < r.next_seq() {
        let j = cursor - r.first;
        assert(r.events[j] == (h.events + msgs)[j + h.events.len() + msgs.len() - r.events.len()]);
    }
}

/// A subscription that reads nothing while more than HUB_CAPACITY events are
/// published is told, on its next read, how many it lost, and then continues
/// at the oldest event still buffered.
pub proof fn lemma_overflow_reports_lag(h: HubView, msgs: Seq<BroadcastMessage>, cursor: int)
    requires
        h.well_formed(),
        h.receivers > 0,
        cursor == h.next_seq(),
        msgs.len() > HUB_CAPACITY,
    ensures
        h.publish_all(msgs).recv(cursor) == (
            RecvOutcome::Lagged((msgs.len() - HUB_CAPACITY) as u64),
            cursor + msgs.len() - HUB_CAPACITY,
        ),
{
    lemma_publish_all_window(h, msgs);
}

} // verus!
