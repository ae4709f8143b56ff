//! Best-effort fan-out of live events to subscribers, each with a bounded
//! backlog of its own.
//!
//! Publishing never waits: a subscriber whose backlog is full loses its
//! oldest pending event and has the loss counted, and learns of it as a gap
//! on its next receive.
use vstd::prelude::*;
use std::collections::VecDeque;
use crate::sample::LiveEvent;

verus! {

/// Backlog that the live hub keeps for each subscriber.
pub const HUB_CAPACITY: usize = 100;

/// A subscriber as the contracts see it.
pub struct SubscriberView {
    pub id: u64,
    /// Events not yet received, oldest first.
    pub pending: Seq<LiveEvent>,
    /// Events dropped since the last receive, saturating at `u64::MAX`.
    pub missed: u64,
}

/// The hub as the contracts see it.
pub struct HubView {
    pub capacity: nat,
    pub next_id: u64,
    pub subscribers: Seq<SubscriberView>,
}

/// What a receive hands back.
#[derive(Clone, Copy, PartialEq, Eq, Debug, Structural)]
pub enum Received {
    /// The oldest pending event.
    Event(LiveEvent),
    /// This many events were dropped since the previous receive.
    Gap { missed: u64 },
    /// Nothing is pending.
    Empty,
    /// The subscription does not exist (never made, or detached).
    Closed,
}

pub open spec fn sat_add(m: u64, k: nat) -> u64 {
    if m + k <= u64::MAX {
        (m + k) as u64
    } else {
        u64::MAX
    }
}

/// Queue-level validity: a positive capacity, each backlog within it, ids
/// below the next one and pairwise distinct.
pub open spec fn hub_wf(h: HubView) -> bool {
    &&& h.capacity >= 1
    &&& forall|i: int|
        0 <= i < h.subscribers.len() ==> {
            &&& (#[trigger] h.subscribers[i]).pending.len() <= h.capacity
            &&& h.subscribers[i].id < h.next_id
        }
    &&& forall|i: int, j: int|
        0 <= i < h.subscribers.len() && 0 <= j < h.subscribers.len() && i != j
            ==> #[trigger] h.subscribers[i].id != #[trigger] h.subscribers[j].id
}

/// One event offered to one subscriber.
pub open spec fn deliver_spec(s: SubscriberView, e: LiveEvent, capacity: nat) -> SubscriberView {
    if s.pending.len() < capacity {
        SubscriberView { id: s.id, pending: s.pending.push(e), missed: s.missed }
    } else {
        SubscriberView {
            id: s.id,
            pending: s.pending.push(e).subrange(1, s.pending.len() + 1 as int),
            missed: sat_add(s.missed, 1),
        }
    }
}

/// One event published to every current subscriber.
pub open spec fn publish_spec(h: HubView, e: LiveEvent) -> HubView {
    HubView {
        capacity: h.capacity,
        next_id: h.next_id,
        subscribers: Seq::new(
            h.subscribers.len(),
            |i: int| deliver_spec(h.subscribers[i], e, h.capacity),
        ),
    }
}

/// Events published one after another, in order.
pub open spec fn publish_all(h: HubView, es: Seq<LiveEvent>) -> HubView
    decreases es.len(),
{
    if es.len() == 0 {
        h
    } else {
        publish_spec(publish_all(h, es.drop_last()), es.last())
    }
}

/// The last `k` elements of `s` (all of them when there are fewer).
pub open spec fn newest(s: Seq<LiveEvent>, k: nat) -> Seq<LiveEvent> {
    if s.len() <= k {
        s
    } else {
        s.subrange(s.len() - k, s.len() as int)
    }
}

pub open spec fn is_subscribed(h: HubView, id: u64) -> bool {
    exists|i: int| 0 <= i < h.subscribers.len() && h.subscribers[i].id == id
}

/// Position of a subscription (meaningful when it exists).
pub open spec fn slot_of(h: HubView, id: u64) -> int {
    choose|i: int| 0 <= i < h.subscribers.len() && h.subscribers[i].id == id
}

/// A receive by one subscriber: a pending gap first, then the oldest event.
pub open spec fn take_spec(s: SubscriberView) -> (SubscriberView, Received) {
    if s.missed > 0 {
        (SubscriberView { id: s.id, pending: s.pending, missed: 0 }, Received::Gap { missed: s.missed })
    } else if s.pending.len() == 0 {
        (s, Received::Empty)
    } else {
        (
            SubscriberView { id: s.id, pending: s.pending.subrange(1, s.pending.len() as int), missed: 0 },
            Received::Event(s.pending[0]),
        )
    }
}

/// A receive on the hub by the subscription `id`.
pub open spec fn recv_spec(h: HubView, id: u64) -> (HubView, Received) {
    if !is_subscribed(h, id) {
        (h, Received::Closed)
    } else {
        let i = slot_of(h, id);
        let (s, r) = take_spec(h.subscribers[i]);
        (HubView { capacity: h.capacity, next_id: h.next_id, subscribers: h.subscribers.update(i, s) }, r)
    }
}

/// The hub once the subscription `id` is gone.
pub open spec fn unsubscribe_spec(h: HubView, id: u64) -> HubView {
    if !is_subscribed(h, id) {
        h
    } else {
        HubView {
            capacity: h.capacity,
            next_id: h.next_id,
            subscribers: h.subscribers.remove(slot_of(h, id)),
        }
    }
}

struct Subscriber {
    id: u64,
    pending: VecDeque<LiveEvent>,
    missed: u64,
}

impl View for Subscriber {
    type V = SubscriberView;

    closed spec fn view(&self) -> SubscriberView {
        SubscriberView { id: self.id, pending: self.pending@, missed: self.missed }
    }
}

impl Subscriber {
    fn deliver(&mut self, e: LiveEvent, capacity: usize)
        requires
            old(self)@.pending.len() <= capacity,
        ensures
            final(self)@ == deliver_spec(old(self)@, e, capacity as nat),
    {
        if self.pending.len() < capacity {
            self.pending.push_back(e);
        } else {
            self.pending.push_back(e);
            let _ = self.pending.pop_front();
            if self.missed < u64::MAX {
                self.missed = self.missed + 1;
            }
        }
    }

    fn take(&mut self) -> (r: Received)
        ensures
            (final(self)@, r) == take_spec(old(self)@),
    {
        if self.missed > 0 {
            let missed = self.missed;
            self.missed = 0;
            Received::Gap { missed }
        } else {
            match self.pending.pop_front() {
                Some(e) => Received::Event(e),
                None => Received::Empty,
            }
        }
    }
}

/// Multi-subscriber live hub with a bounded backlog per subscriber.
pub struct BroadcastHub {
    capacity: usize,
    next_id: u64,
    subscribers: Vec<Subscriber>,
}

impl View for BroadcastHub {
    type V = HubView;

    closed spec fn view(&self) -> HubView {
        HubView {
            capacity: self.capacity as nat,
            next_id: self.next_id,
            subscribers: self.subscribers@.map_values(|s: Subscriber| s@),
        }
    }
}

impl BroadcastHub {
    #[verifier::type_invariant]
    closed spec fn inv(&self) -> bool {
        hub_wf(self@)
    }

    /// A hub with the standard backlog and no subscribers.
    pub fn new() -> (r: BroadcastHub)
        ensures
            r@.capacity == HUB_CAPACITY,
            r@.next_id == 0,
            r@.subscribers.len() == 0,
    {
        BroadcastHub::with_capacity(HUB_CAPACITY)
    }

    /// A hub whose subscribers each keep at most `capacity` pending events.
    pub fn with_capacity(capacity: usize) -> (r: BroadcastHub)
        requires
            capacity >= 1,
        ensures
            r@.capacity == capacity,
            r@.next_id == 0,
            r@.subscribers.len() == 0,
    {
        let r = BroadcastHub { capacity, next_id: 0, subscribers: Vec::new() };
        assert(r@.subscribers =~= Seq::<SubscriberView>::empty());
        r
    }

    /// Makes the hub's validity available to proofs about it; it always
    /// holds.
    pub fn check_valid(&self)
        ensures
            hub_wf(self@),
    {
        proof {
            use_type_invariant(self);
        }
    }

    /// Number of live subscriptions.
    pub fn subscriber_count(&self) -> (r: usize)
        ensures
            r == self@.subscribers.len(),
    {
        self.subscribers.len()
    }

    /// Offers `e` to every current subscriber without waiting on any of
    /// them; returns how many there were. With none, nothing is kept.
    pub fn publish(&mut self, e: LiveEvent) -> (r: usize)
        ensures
            final(self)@ == publish_spec(old(self)@, e),
            r == old(self)@.subscribers.len(),
            old(self)@.subscribers.len() == 0 ==> final(self)@ == old(self)@,
    {
        proof {
            use_type_invariant(&*self);
        }
        let ghost old_h = self@;
        let mut subs: Vec<Subscriber> = Vec::new();
        std::mem::swap(&mut self.subscribers, &mut subs);
        let n = subs.len();
        let cap = self.capacity;
        let mut i: usize = 0;
        while i < n
            invariant
                n == subs.len(),
                n == old_h.subscribers.len(),
                cap as nat == old_h.capacity,
                hub_wf(old_h),
                i <= n,
                forall|j: int|
                    0 <= j < i ==> #[trigger] subs@[j]@ == deliver_spec(
                        old_h.subscribers[j],
                        e,
                        old_h.capacity,
                    ),
                forall|j: int| i <= j < n ==> #[trigger] subs@[j]@ == old_h.subscribers[j],
            decreases n - i,
        {
            let s = &mut subs[i];
            s.deliver(e, cap);
            i = i + 1;
        }
        let ghost new_subs = subs@.map_values(|s: Subscriber| s@);
        assert(new_subs =~= publish_spec(old_h, e).subscribers);
        proof {
            lemma_publish_keeps_wf(old_h, e);
        }
        self.subscribers = subs;
        if n == 0 {
            assert(self@.subscribers =~= old_h.subscribers);
        }
        n
    }

    /// Opens a subscription that receives every event published from now
    /// on; `None` only once every id has been handed out.
    pub fn subscribe(&mut self) -> (r: Option<u64>)
        ensures
            match r {
                Some(id) => {
                    &&& old(self)@.next_id < u64::MAX
                    &&& id == old(self)@.next_id
                    &&& final(self)@ == HubView {
                        capacity: old(self)@.capacity,
                        next_id: (id + 1) as u64,
                        subscribers: old(self)@.subscribers.push(
                            SubscriberView { id, pending: Seq::empty(), missed: 0 },
                        ),
                    }
                },
                None => old(self)@.next_id == u64::MAX && final(self)@ == old(self)@,
            },
    {
        proof {
            use_type_invariant(&*self);
        }
        if self.next_id == u64::MAX {
            return None;
        }
        let id = self.next_id;
        self.next_id = id + 1;
        let sub = Subscriber { id, pending: VecDeque::new(), missed: 0 };
        assert(sub@.pending =~= Seq::<LiveEvent>::empty());
        let mut subs: Vec<Subscriber> = Vec::new();
        std::mem::swap(&mut self.subscribers, &mut subs);
        subs.push(sub);
        proof {
            let h0 = old(self)@;
            let ns = subs@.map_values(|s: Subscriber| s@);
            assert(ns =~= h0.subscribers.push(SubscriberView { id, pending: Seq::empty(), missed: 0 }));
            assert forall|a: int| 0 <= a < ns.len() implies
                (#[trigger] ns[a]).pending.len() <= h0.capacity && ns[a].id < id + 1 by {
                if a < h0.subscribers.len() {
                    assert(ns[a] == h0.subscribers[a]);
                }
            }
            assert forall|a: int, b: int|
                0 <= a < ns.len() && 0 <= b < ns.len() && a != b
                    implies #[trigger] ns[a].id != #[trigger] ns[b].id by {
                if a < h0.subscribers.len() && b < h0.subscribers.len() {
                    assert(ns[a] == h0.subscribers[a]);
                    assert(ns[b] == h0.subscribers[b]);
                } else if a < h0.subscribers.len() {
                    assert(ns[a] == h0.subscribers[a]);
                } else if b < h0.subscribers.len() {
                    assert(ns[b] == h0.subscribers[b]);
                }
            }
        }
        self.subscribers = subs;
        assert(self@.subscribers =~= old(self)@.subscribers.push(
            SubscriberView { id, pending: Seq::empty(), missed: 0 },
        ));
        Some(id)
    }

    fn position(&self, id: u64) -> (r: Option<usize>)
        ensures
            match r {
                Some(i) => i < self@.subscribers.len() && slot_of(self@, id) == i && is_subscribed(
                    self@,
                    id,
                ),
                None => !is_subscribed(self@, id),
            },
    {
        proof {
            use_type_invariant(self);
        }
        let n = self.subscribers.len();
        let mut i: usize = 0;
        while i < n
            invariant
                n == self@.subscribers.len(),
                hub_wf(self@),
                i <= n,
                forall|j: int| 0 <= j < i ==> (#[trigger] self@.subscribers[j]).id != id,
            decreases n - i,
        {
            if self.subscribers[i].id == id {
                assert(self@.subscribers[i as int].id == id);
                assert(is_subscribed(self@, id));
                let ghost k = slot_of(self@, id);
                assert(0 <= k < n && self@.subscribers[k].id == id);
                assert(k == i) by {
                    if k != i {
                        assert(self@.subscribers[k].id != self@.subscribers[i as int].id);
                    }
                }
                return Some(i);
            }
            i = i + 1;
        }
        None
    }

    /// Takes what is next for subscription `id`: a gap if events were
    /// dropped since its last receive, else its oldest pending event.
    pub fn recv(&mut self, id: u64) -> (r: Received)
        ensures
            (final(self)@, r) == recv_spec(old(self)@, id),
            !is_subscribed(old(self)@, id) ==> r == Received::Closed && final(self)@ == old(self)@,
            forall|i: int|
                0 <= i < old(self)@.subscribers.len() && (#[trigger] old(self)@.subscribers[i]).id
                    == id ==> {
                    &&& r == take_spec(old(self)@.subscribers[i]).1
                    &&& final(self)@.subscribers == old(self)@.subscribers.update(
                        i,
                        take_spec(old(self)@.subscribers[i]).0,
                    )
                    &&& final(self)@.capacity == old(self)@.capacity
                    &&& final(self)@.next_id == old(self)@.next_id
                },
    {
        proof {
            use_type_invariant(&*self);
        }
        match self.position(id) {
            None => Received::Closed,
            Some(i) => {
                let ghost old_h = self@;
                let mut subs: Vec<Subscriber> = Vec::new();
                std::mem::swap(&mut self.subscribers, &mut subs);
                let s = &mut subs[i];
                let r = s.take();
                let ghost new_subs = subs@.map_values(|s: Subscriber| s@);
                assert(new_subs =~= old_h.subscribers.update(i as int, take_spec(old_h.subscribers[i as int]).0));
                assert forall|a: int| 0 <= a < new_subs.len() implies
                    (#[trigger] new_subs[a]).id == old_h.subscribers[a].id
                        && new_subs[a].pending.len() <= old_h.subscribers[a].pending.len() by {}
                self.subscribers = subs;
                r
            },
        }
    }

    /// Detaches subscription `id`, releasing its backlog; returns whether it
    /// existed.
    pub fn unsubscribe(&mut self, id: u64) -> (r: bool)
        ensures
            r == is_subscribed(old(self)@, id),
            final(self)@ == unsubscribe_spec(old(self)@, id),
            forall|i: int|
                0 <= i < old(self)@.subscribers.len() && (#[trigger] old(self)@.subscribers[i]).id
                    == id ==> final(self)@.subscribers == old(self)@.subscribers.remove(i),
    {
        proof {
            use_type_invariant(&*self);
        }
        match self.position(id) {
            None => false,
            Some(i) => {
                let ghost old_h = self@;
                let mut subs: Vec<Subscriber> = Vec::new();
                std::mem::swap(&mut self.subscribers, &mut subs);
                let _ = subs.remove(i);
                let ghost new_subs = subs@.map_values(|s: Subscriber| s@);
                assert(new_subs =~= old_h.subscribers.remove(i as int));
                assert forall|a: int| 0 <= a < new_subs.len() implies
                    #[trigger] new_subs[a] == old_h.subscribers[if a < i { a } else { a + 1 }] by {}
                self.subscribers = subs;
                true
            },
        }
    }
}

/// Publishing keeps the hub valid, so no backlog ever exceeds the capacity.
pub proof fn lemma_publish_keeps_wf(h: HubView, e: LiveEvent)
    requires
        hub_wf(h),
    ensures
        hub_wf(publish_spec(h, e)),
        publish_spec(h, e).subscribers.len() == h.subscribers.len(),
{
    let h2 = publish_spec(h, e);
    assert forall|a: int, b: int|
        0 <= a < h2.subscribers.len() && 0 <= b < h2.subscribers.len() && a != b
            implies #[trigger] h2.subscribers[a].id != #[trigger] h2.subscribers[b].id by {
        assert(h2.subscribers[a].id == h.subscribers[a].id);
        assert(h2.subscribers[b].id == h.subscribers[b].id);
    }
    assert forall|a: int| 0 <= a < h2.subscribers.len() implies
        (#[trigger] h2.subscribers[a]).pending.len() <= h2.capacity
            && h2.subscribers[a].id < h2.next_id by {
        assert(h.subscribers[a].pending.len() <= h.capacity);
    }
}

/// Any run of publishes keeps the hub valid: memory held stays within one
/// capacity's worth of events per subscriber.
pub proof fn lemma_publish_all_keeps_wf(h: HubView, es: Seq<LiveEvent>)
    requires
        hub_wf(h),
    ensures
        hub_wf(publish_all(h, es)),
        publish_all(h, es).subscribers.len() == h.subscribers.len(),
        publish_all(h, es).capacity == h.capacity,
        publish_all(h, es).next_id == h.next_id,
    decreases es.len(),
{
    if es.len() > 0 {
        lemma_publish_all_keeps_wf(h, es.drop_last());
        lemma_publish_keeps_wf(publish_all(h, es.drop_last()), es.last());
    }
}

/// With no subscribers, publishing any number of events changes nothing
/// and retains nothing.
pub proof fn lemma_publish_without_subscribers(h: HubView, es: Seq<LiveEvent>)
    requires
        h.subscribers.len() == 0,
    ensures
        publish_all(h, es) == h,
    decreases es.len(),
{
    if es.len() > 0 {
        lemma_publish_without_subscribers(h, es.drop_last());
        assert(publish_spec(h, es.last()).subscribers =~= h.subscribers);
    }
}

/// A subscriber that receives nothing while events are published keeps the
/// newest of them, in publish order, behind what it already had; every
/// event it lost is counted toward the gap it will be told of.
pub proof fn lemma_slow_subscriber(h: HubView, es: Seq<LiveEvent>, i: int)
    requires
        hub_wf(h),
        0 <= i < h.subscribers.len(),
    ensures
        publish_all(h, es).subscribers.len() == h.subscribers.len(),
        publish_all(h, es).subscribers[i].id == h.subscribers[i].id,
        publish_all(h, es).subscribers[i].pending == newest(
            h.subscribers[i].pending + es,
            h.capacity,
        ),
        publish_all(h, es).subscribers[i].missed == sat_add(
            h.subscribers[i].missed,
            (h.subscribers[i].pending.len() + es.len() - publish_all(
                h,
                es,
            ).subscribers[i].pending.len()) as nat,
        ),
        h.subscribers[i].pending.len() + es.len() > h.capacity ==> publish_all(
            h,
            es,
        ).subscribers[i].missed > 0,
    decreases es.len(),
{
    let s = h.subscribers[i];
    let cap = h.capacity;
    if es.len() == 0 {
        assert(s.pending + es =~= s.pending);
    } else {
        let es0 = es.drop_last();
        let e = es.last();
        lemma_slow_subscriber(h, es0, i);
        lemma_publish_all_keeps_wf(h, es0);
        let h1 = publish_all(h, es0);
        let s1 = h1.subscribers[i];
        let t0 = s.pending + es0;
        let t = s.pending + es;
        assert(t =~= t0.push(e));
        assert(s1.pending.len() <= cap);
        let s2 = publish_all(h, es).subscribers[i];
        assert(s2 == deliver_spec(s1, e, cap));
        if s1.pending.len() < cap {
            assert(t0.len() < cap);
            assert(s2.pending =~= newest(t, cap));
        } else {
            assert(s2.pending =~= newest(t, cap));
        }
    }
}

/// One step seen by a single subscriber: a publish to the hub, or a
/// receive by that subscriber.
pub enum HubStep {
    Publish(LiveEvent),
    Receive,
}

/// Runs `steps` for subscriber `i`: the hub afterwards and the events that
/// subscriber received, in order.
pub open spec fn run_steps(h: HubView, i: int, steps: Seq<HubStep>) -> (HubView, Seq<LiveEvent>)
    decreases steps.len(),
{
    if steps.len() == 0 {
        (h, Seq::empty())
    } else {
        let (h0, got) = run_steps(h, i, steps.drop_last());
        match steps.last() {
            HubStep::Publish(e) => (publish_spec(h0, e), got),
            HubStep::Receive => {
                let (s, r) = take_spec(h0.subscribers[i]);
                let h1 = HubView {
                    capacity: h0.capacity,
                    next_id: h0.next_id,
                    subscribers: h0.subscribers.update(i, s),
                };
                match r {
                    Received::Event(x) => (h1, got.push(x)),
                    _ => (h1, got),
                }
            },
        }
    }
}

/// The events published among `steps`, in order.
pub open spec fn published_in(steps: Seq<HubStep>) -> Seq<LiveEvent>
    decreases steps.len(),
{
    if steps.len() == 0 {
        Seq::empty()
    } else {
        match steps.last() {
            HubStep::Publish(e) => published_in(steps.drop_last()).push(e),
            HubStep::Receive => published_in(steps.drop_last()),
        }
    }
}

/// `idx` places each element of `a` in `b`, at strictly increasing positions.
pub open spec fn embeds(idx: Seq<int>, a: Seq<LiveEvent>, b: Seq<LiveEvent>) -> bool {
    &&& idx.len() == a.len()
    &&& forall|k: int| 0 <= k < a.len() ==> 0 <= #[trigger] idx[k] < b.len() && b[idx[k]] == a[k]
    &&& forall|k: int, l: int| 0 <= k < l < a.len() ==> #[trigger] idx[k] < #[trigger] idx[l]
}

/// `a` is `b` with some elements left out, the rest kept in order.
pub open spec fn is_subsequence(a: Seq<LiveEvent>, b: Seq<LiveEvent>) -> bool {
    exists|idx: Seq<int>| embeds(idx, a, b)
}

proof fn embeds_push(idx: Seq<int>, a: Seq<LiveEvent>, b: Seq<LiveEvent>, x: LiveEvent)
    requires
        embeds(idx, a, b),
    ensures
        embeds(idx, a, b.push(x)),
        embeds(idx.push(b.len() as int), a.push(x), b.push(x)),
{
    let b2 = b.push(x);
    assert forall|k: int| 0 <= k < a.len() implies 0 <= #[trigger] idx[k] < b2.len() && b2[idx[k]]
        == a[k] by {}
    let i2 = idx.push(b.len() as int);
    let a2 = a.push(x);
    assert forall|k: int| 0 <= k < a2.len() implies 0 <= #[trigger] i2[k] < b2.len() && b2[i2[k]]
        == a2[k] by {
        if k < a.len() {
            assert(i2[k] == idx[k]);
        }
    }
    assert forall|k: int, l: int| 0 <= k < l < a2.len() implies #[trigger] i2[k] < #[trigger] i2[l] by {
        assert(i2[k] == idx[k]);
        if l < a.len() {
            assert(i2[l] == idx[l]);
        }
    }
}

proof fn embeds_remove(idx: Seq<int>, a: Seq<LiveEvent>, b: Seq<LiveEvent>, j: int)
    requires
        embeds(idx, a, b),
        0 <= j < a.len(),
    ensures
        embeds(idx.remove(j), a.remove(j), b),
{
    let i2 = idx.remove(j);
    let a2 = a.remove(j);
    assert forall|k: int| 0 <= k < a2.len() implies 0 <= #[trigger] i2[k] < b.len() && b[i2[k]]
        == a2[k] by {
        if k < j {
            assert(i2[k] == idx[k]);
        } else {
            assert(i2[k] == idx[k + 1]);
        }
    }
    assert forall|k: int, l: int| 0 <= k < l < a2.len() implies #[trigger] i2[k] < #[trigger] i2[l] by {
        let k1 = if k < j { k } else { k + 1 };
        let l1 = if l < j { l } else { l + 1 };
        assert(i2[k] == idx[k1]);
        assert(i2[l] == idx[l1]);
        assert(idx[k1] < idx[l1]);
    }
}

/// Embeds what subscriber `i` received followed by what it still has
/// pending into what it had pending followed by what was published.
proof fn stream_embedding(h: HubView, i: int, steps: Seq<HubStep>) -> (idx: Seq<int>)
    requires
        0 <= i < h.subscribers.len(),
    ensures
        run_steps(h, i, steps).0.subscribers.len() == h.subscribers.len(),
        run_steps(h, i, steps).0.capacity == h.capacity,
        embeds(
            idx,
            run_steps(h, i, steps).1 + run_steps(h, i, steps).0.subscribers[i].pending,
            h.subscribers[i].pending + published_in(steps),
        ),
    decreases steps.len(),
{
    if steps.len() == 0 {
        let a = Seq::<LiveEvent>::empty() + h.subscribers[i].pending;
        let b = h.subscribers[i].pending + Seq::<LiveEvent>::empty();
        assert(a =~= h.subscribers[i].pending);
        assert(b =~= h.subscribers[i].pending);
        let idx = Seq::new(a.len(), |k: int| k);
        assert(embeds(idx, a, b));
        idx
    } else {
        let rest = steps.drop_last();
        let idx0 = stream_embedding(h, i, rest);
        let (h0, got0) = run_steps(h, i, rest);
        let p0 = h0.subscribers[i].pending;
        let src0 = h.subscribers[i].pending + published_in(rest);
        let stream0 = got0 + p0;
        match steps.last() {
            HubStep::Publish(e) => {
                let src = h.subscribers[i].pending + published_in(steps);
                assert(src =~= src0.push(e));
                let p1 = run_steps(h, i, steps).0.subscribers[i].pending;
                assert(run_steps(h, i, steps).0.subscribers[i] == deliver_spec(
                    h0.subscribers[i],
                    e,
                    h0.capacity,
                ));
                embeds_push(idx0, stream0, src0, e);
                if p0.len() < h0.capacity {
                    assert(got0 + p1 =~= stream0.push(e));
                    idx0.push(src0.len() as int)
                } else if p0.len() == 0 {
                    assert(got0 + p1 =~= stream0);
                    idx0
                } else {
                    let g = got0.len() as int;
                    embeds_remove(idx0, stream0, src0, g);
                    let i1 = idx0.remove(g);
                    embeds_push(i1, stream0.remove(g), src0, e);
                    assert(got0 + p1 =~= stream0.remove(g).push(e));
                    i1.push(src0.len() as int)
                }
            },
            HubStep::Receive => {
                assert(published_in(steps) == published_in(rest));
                let (s, r) = take_spec(h0.subscribers[i]);
                let (h1, got1) = run_steps(h, i, steps);
                assert(h1.subscribers[i] == s);
                match r {
                    Received::Event(x) => {
                        assert(got1 + s.pending =~= stream0);
                    },
                    _ => {
                        assert(got1 + s.pending =~= stream0);
                    },
                }
                idx0
            },
        }
    }
}

/// Whatever a subscriber receives, however its receives interleave with
/// publishes, comes in publish order without repeats: it is what it had
/// pending followed by what was published, with some events left out.
pub proof fn lemma_received_in_publish_order(h: HubView, i: int, steps: Seq<HubStep>)
    requires
        0 <= i < h.subscribers.len(),
    ensures
        is_subsequence(run_steps(h, i, steps).1, h.subscribers[i].pending + published_in(steps)),
{
    let idx = stream_embedding(h, i, steps);
    let got = run_steps(h, i, steps).1;
    let stream = got + run_steps(h, i, steps).0.subscribers[i].pending;
    let src = h.subscribers[i].pending + published_in(steps);
    let i2 = idx.subrange(0, got.len() as int);
    assert forall|k: int| 0 <= k < got.len() implies 0 <= #[trigger] i2[k] < src.len() && src[i2[k]]
        == got[k] by {
        assert(i2[k] == idx[k]);
        assert(stream[k] == got[k]);
    }
    assert forall|k: int, l: int| 0 <= k < l < got.len() implies #[trigger] i2[k] < #[trigger] i2[l] by {
        assert(i2[k] == idx[k]);
        assert(i2[l] == idx[l]);
    }
    assert(embeds(i2, got, src));
}

} // verus!
