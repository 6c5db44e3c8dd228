//! The broadcast hub: every published sample goes to all who are subscribed
//! at that moment, each through a backlog of its own.
//!
//! Publishing never waits. A subscriber that lets its backlog fill up loses
//! its oldest samples and is told of the gap; nobody else is affected.

use crate::data::TokenPrice;
use std::collections::VecDeque;
use vstd::prelude::*;

verus! {

/// How many samples a subscriber may leave unread before it loses the oldest.
pub const BACKLOG: usize = 100;

/// What a subscriber gets when it asks for its next sample.
#[derive(Debug)]
pub enum Delivery {
    /// The oldest sample that the subscriber has not yet read.
    Sample(TokenPrice),
    /// Samples were lost since the last read; the next read gives the oldest
    /// one that is left.
    Lagged,
    /// Nothing is waiting.
    Empty,
    /// Nothing is waiting and nothing will come: the hub is closed, or the
    /// subscription is not open.
    Closed,
}

/// One subscriber as contracts see it.
#[verifier::ext_equal]
pub struct SubscriberView {
    /// The samples not yet read, oldest first.
    pub pending: Seq<TokenPrice>,
    /// Samples were lost since the last read.
    pub gap: bool,
    /// The subscription is open.
    pub live: bool,
}

impl SubscriberView {
    /// A subscriber that has just subscribed.
    pub open spec fn fresh() -> SubscriberView {
        SubscriberView { pending: Seq::empty(), gap: false, live: true }
    }

    /// A subscription that was given up.
    pub open spec fn gone() -> SubscriberView {
        SubscriberView { pending: Seq::empty(), gap: false, live: false }
    }

    /// The subscriber after `sample` was published.
    pub open spec fn deliver(self, sample: TokenPrice) -> SubscriberView {
        if !self.live {
            self
        } else if self.pending.len() >= BACKLOG {
            SubscriberView { pending: self.pending.drop_first().push(sample), gap: true, live: true }
        } else {
            SubscriberView { pending: self.pending.push(sample), gap: self.gap, live: true }
        }
    }

    /// The subscriber after it asked for its next sample, and what it got.
    pub open spec fn take(self, hub_open: bool) -> (SubscriberView, Delivery) {
        if !self.live {
            (self, Delivery::Closed)
        } else if self.gap {
            (SubscriberView { pending: self.pending, gap: false, live: true }, Delivery::Lagged)
        } else if self.pending.len() > 0 {
            (
                SubscriberView { pending: self.pending.drop_first(), gap: false, live: true },
                Delivery::Sample(self.pending[0]),
            )
        } else if hub_open {
            (self, Delivery::Empty)
        } else {
            (self, Delivery::Closed)
        }
    }
}

/// The hub as contracts see it.
#[verifier::ext_equal]
pub struct HubView {
    /// Every subscription ever made, in the order in which they were made. A
    /// subscriber's number is its place in this sequence.
    pub subscribers: Seq<SubscriberView>,
    /// The publisher is still there.
    pub open: bool,
}

/// How many of `subscribers` are open.
pub open spec fn live_count(subscribers: Seq<SubscriberView>) -> nat
    decreases subscribers.len(),
{
    if subscribers.len() == 0 {
        0
    } else {
        live_count(subscribers.drop_last()) + if subscribers.last().live {
            1nat
        } else {
            0nat
        }
    }
}

impl HubView {
    /// A hub that nobody has subscribed to.
    pub open spec fn empty() -> HubView {
        HubView { subscribers: Seq::empty(), open: true }
    }

    /// No backlog holds more than `BACKLOG` samples.
    pub open spec fn bounded(self) -> bool {
        forall|i: int|
            0 <= i < self.subscribers.len() ==> (#[trigger] self.subscribers[i]).pending.len()
                <= BACKLOG
    }

    /// The hub after one more subscription.
    pub open spec fn subscribe(self) -> HubView {
        HubView { subscribers: self.subscribers.push(SubscriberView::fresh()), open: self.open }
    }

    /// The hub after subscriber `id` gave up its subscription.
    pub open spec fn unsubscribe(self, id: int) -> HubView {
        if 0 <= id < self.subscribers.len() {
            HubView {
                subscribers: self.subscribers.update(id, SubscriberView::gone()),
                open: self.open,
            }
        } else {
            self
        }
    }

    /// The hub after `sample` was published.
    pub open spec fn publish(self, sample: TokenPrice) -> HubView {
        if self.open {
            HubView {
                subscribers: Seq::new(
                    self.subscribers.len(),
                    |i: int| self.subscribers[i].deliver(sample),
                ),
                open: true,
            }
        } else {
            self
        }
    }

    /// How many subscribers a sample published now is handed to.
    pub open spec fn reach(self) -> nat {
        if self.open {
            live_count(self.subscribers)
        } else {
            0
        }
    }

    /// The hub after subscriber `id` asked for its next sample, and what it
    /// got.
    pub open spec fn receive(self, id: int) -> (HubView, Delivery) {
        if 0 <= id < self.subscribers.len() {
            let (subscriber, delivery) = self.subscribers[id].take(self.open);
            (
                HubView { subscribers: self.subscribers.update(id, subscriber), open: self.open },
                delivery,
            )
        } else {
            (self, Delivery::Closed)
        }
    }

    /// The hub after the publisher went away.
    pub open spec fn close(self) -> HubView {
        HubView { subscribers: self.subscribers, open: false }
    }
}

/// No replay: whoever subscribes after a sample was published starts with
/// an empty backlog, and so never gets that sample.
pub proof fn lemma_no_replay(hub: HubView, sample: TokenPrice)
    ensures
        ({
            let later = hub.publish(sample).subscribe();
            let newcomer = hub.subscribers.len() as int;
            &&& later.subscribers.len() == newcomer + 1
            &&& later.subscribers[newcomer] == SubscriberView::fresh()
            &&& !(later.receive(newcomer).1 is Sample)
        }),
{
}

/// A backlog gains nothing but what is published: after a publish every
/// waiting sample either waited before or is the one just published.
pub proof fn lemma_only_published_samples_wait(
    subscriber: SubscriberView,
    sample: TokenPrice,
    index: int,
)
    requires
        0 <= index < subscriber.deliver(sample).pending.len(),
    ensures
        subscriber.deliver(sample).pending[index] == sample || subscriber.pending.contains(
            subscriber.deliver(sample).pending[index],
        ),
{
    let after = subscriber.deliver(sample).pending;
    if after[index] != sample {
        if !subscriber.live {
            assert(subscriber.pending[index] == after[index]);
        } else if subscriber.pending.len() >= BACKLOG {
            assert(subscriber.pending[index + 1] == after[index]);
        } else {
            assert(subscriber.pending[index] == after[index]);
        }
    }
}

/// Who is subscribed when a sample is published gets it exactly once, behind
/// all that already waits for it, as long as its backlog has room. Reading
/// then gives the waiting samples in the order in which they were published.
pub proof fn lemma_delivered_once_in_order(hub: HubView, id: int, sample: TokenPrice)
    requires
        hub.open,
        0 <= id < hub.subscribers.len(),
        hub.subscribers[id].live,
        hub.subscribers[id].pending.len() < BACKLOG,
    ensures
        ({
            let before = hub.subscribers[id];
            let after = hub.publish(sample).subscribers[id];
            &&& after.pending == before.pending.push(sample)
            &&& after.gap == before.gap
            &&& after.live
            &&& !before.gap && before.pending.len() == 0 ==> hub.publish(sample).receive(id).1
                == Delivery::Sample(sample)
            &&& !before.gap && before.pending.len() > 0 ==> hub.publish(sample).receive(id).1
                == Delivery::Sample(before.pending[0])
        }),
{
}

/// A subscriber whose backlog is full when a sample is published loses its
/// oldest sample and is told of the gap on its next read; its backlog stays
/// full and no other subscriber is affected.
pub proof fn lemma_overflow_is_a_gap(hub: HubView, id: int, other: int, sample: TokenPrice)
    requires
        hub.open,
        0 <= id < hub.subscribers.len(),
        0 <= other < hub.subscribers.len(),
        hub.subscribers[id].live,
        hub.subscribers[id].pending.len() == BACKLOG,
    ensures
        ({
            let before = hub.subscribers[id];
            let after = hub.publish(sample).subscribers[id];
            &&& after.pending == before.pending.drop_first().push(sample)
            &&& after.pending.len() == BACKLOG
            &&& after.gap
            &&& hub.publish(sample).receive(id).1 == Delivery::Lagged
            &&& hub.publish(sample).subscribers[other] == hub.subscribers[other].deliver(sample)
        }),
{
}

/// No backlog ever outgrows `BACKLOG`, and reading or giving up one
/// subscription leaves all others as they were.
pub proof fn lemma_backlogs_stay_bounded(hub: HubView, id: int, other: int, sample: TokenPrice)
    requires
        hub.bounded(),
    ensures
        HubView::empty().bounded(),
        hub.subscribe().bounded(),
        hub.publish(sample).bounded(),
        hub.receive(id).0.bounded(),
        hub.unsubscribe(id).bounded(),
        hub.close().bounded(),
        0 <= other < hub.subscribers.len() && other != id ==> hub.receive(id).0.subscribers[other]
            == hub.subscribers[other] && hub.unsubscribe(id).subscribers[other]
            == hub.subscribers[other],
{
    assert(hub.subscribe().bounded()) by {
        assert forall|i: int| 0 <= i < hub.subscribe().subscribers.len() implies (
        #[trigger] hub.subscribe().subscribers[i]).pending.len() <= BACKLOG by {
            if i < hub.subscribers.len() {
                assert(hub.subscribe().subscribers[i] == hub.subscribers[i]);
            }
        }
    }
    assert(hub.publish(sample).bounded()) by {
        assert forall|i: int| 0 <= i < hub.publish(sample).subscribers.len() implies (
        #[trigger] hub.publish(sample).subscribers[i]).pending.len() <= BACKLOG by {
            assert(hub.subscribers[i].pending.len() <= BACKLOG);
        }
    }
    assert(hub.receive(id).0.bounded()) by {
        assert forall|i: int| 0 <= i < hub.receive(id).0.subscribers.len() implies (
        #[trigger] hub.receive(id).0.subscribers[i]).pending.len() <= BACKLOG by {
            assert(hub.subscribers[i].pending.len() <= BACKLOG);
        }
    }
    assert(hub.unsubscribe(id).bounded()) by {
        assert forall|i: int| 0 <= i < hub.unsubscribe(id).subscribers.len() implies (
        #[trigger] hub.unsubscribe(id).subscribers[i]).pending.len() <= BACKLOG by {
            assert(hub.subscribers[i].pending.len() <= BACKLOG);
        }
    }
}

/// Where no subscription is open, none is counted.
pub proof fn lemma_none_live_counts_zero(subscribers: Seq<SubscriberView>)
    requires
        forall|i: int| 0 <= i < subscribers.len() ==> !(#[trigger] subscribers[i]).live,
    ensures
        live_count(subscribers) == 0,
    decreases subscribers.len(),
{
    if subscribers.len() > 0 {
        let shorter = subscribers.drop_last();
        assert forall|i: int| 0 <= i < shorter.len() implies !(#[trigger] shorter[i]).live by {
            assert(shorter[i] == subscribers[i]);
        }
        lemma_none_live_counts_zero(shorter);
    }
}

/// With no open subscription, and on a closed hub, publishing is a no-op.
pub proof fn lemma_publish_without_subscribers(hub: HubView, sample: TokenPrice)
    requires
        !hub.open || forall|i: int|
            0 <= i < hub.subscribers.len() ==> !(#[trigger] hub.subscribers[i]).live,
    ensures
        hub.publish(sample) == hub,
        hub.reach() == 0,
{
    assert(hub.publish(sample) =~= hub);
    if hub.open {
        lemma_none_live_counts_zero(hub.subscribers);
    }
}

/// One subscription and its backlog.
#[derive(Debug)]
struct Subscriber {
    backlog: VecDeque<TokenPrice>,
    gap: bool,
    live: bool,
}

impl View for Subscriber {
    type V = SubscriberView;

    closed spec fn view(&self) -> SubscriberView {
        SubscriberView { pending: self.backlog@, gap: self.gap, live: self.live }
    }
}

impl Subscriber {
    fn deliver(&mut self, sample: TokenPrice)
        ensures
            final(self)@ == old(self)@.deliver(sample),
    {
        if self.live {
            if self.backlog.len() >= BACKLOG {
                let _ = self.backlog.pop_front();
                self.gap = true;
            }
            self.backlog.push_back(sample);
        }
    }

    fn take(&mut self, hub_open: bool) -> (delivery: Delivery)
        ensures
            (final(self)@, delivery) == old(self)@.take(hub_open),
    {
        if !self.live {
            Delivery::Closed
        } else if self.gap {
            self.gap = false;
            Delivery::Lagged
        } else {
            match self.backlog.pop_front() {
                Some(sample) => Delivery::Sample(sample),
                None => if hub_open {
                    Delivery::Empty
                } else {
                    Delivery::Closed
                },
            }
        }
    }
}

/// The broadcast hub.
#[derive(Debug)]
pub struct PriceHub {
    subscribers: Vec<Subscriber>,
    open: bool,
}

impl View for PriceHub {
    type V = HubView;

    closed spec fn view(&self) -> HubView {
        HubView {
            subscribers: Seq::new(self.subscribers@.len(), |i: int| self.subscribers@[i]@),
            open: self.open,
        }
    }
}

impl PriceHub {
    /// A hub without subscribers.
    pub fn new() -> (hub: PriceHub)
        ensures
            hub@ == HubView::empty(),
    {
        let hub = PriceHub { subscribers: Vec::new(), open: true };
        assert(hub@ =~= HubView::empty());
        hub
    }

    /// Opens a subscription and returns its number. The subscriber gets the
    /// samples published from now on, and none from before.
    pub fn subscribe(&mut self) -> (id: usize)
        ensures
            id == old(self)@.subscribers.len(),
            final(self)@ == old(self)@.subscribe(),
    {
        let id = self.subscribers.len();
        self.subscribers.push(Subscriber { backlog: VecDeque::new(), gap: false, live: true });
        assert(self@ =~= old(self)@.subscribe());
        id
    }

    /// Hands `sample` to every open subscription and returns how many there
    /// were. With none, or on a closed hub, nothing happens.
    pub fn publish(&mut self, sample: TokenPrice) -> (reached: usize)
        ensures
            final(self)@ == old(self)@.publish(sample),
            reached == old(self)@.reach(),
    {
        if !self.open {
            return 0;
        }
        let mut reached: usize = 0;
        let mut i: usize = 0;
        while i < self.subscribers.len()
            invariant
                i <= self.subscribers@.len(),
                self.open,
                self.subscribers@.len() == old(self).subscribers@.len(),
                reached == live_count(old(self)@.subscribers.take(i as int)),
                reached <= i,
                forall|j: int|
                    0 <= j < i ==> (#[trigger] self.subscribers@[j])@ == old(
                        self,
                    ).subscribers@[j]@.deliver(sample),
                forall|j: int|
                    i <= j < self.subscribers@.len() ==> (#[trigger] self.subscribers@[j])
                        == old(self).subscribers@[j],
            decreases self.subscribers@.len() - i,
        {
            proof {
                let subs = old(self)@.subscribers;
                assert(subs.take(i as int + 1).drop_last() == subs.take(i as int));
            }
            if self.subscribers[i].live {
                reached = reached + 1;
            }
            self.subscribers[i].deliver(sample.clone());
            i = i + 1;
        }
        proof {
            let subs = old(self)@.subscribers;
            assert(subs.take(subs.len() as int) == subs);
            assert(self@ =~= old(self)@.publish(sample));
        }
        reached
    }

    /// Gives subscriber `id` its next sample, if one is waiting.
    pub fn receive(&mut self, id: usize) -> (delivery: Delivery)
        ensures
            (final(self)@, delivery) == old(self)@.receive(id as int),
    {
        if id < self.subscribers.len() {
            let delivery = self.subscribers[id].take(self.open);
            assert(self@ =~= old(self)@.receive(id as int).0);
            delivery
        } else {
            Delivery::Closed
        }
    }

    /// Gives up subscription `id`: what waits in its backlog is dropped and
    /// nothing more is handed to it. The other subscriptions are untouched.
    pub fn unsubscribe(&mut self, id: usize)
        ensures
            final(self)@ == old(self)@.unsubscribe(id as int),
    {
        if id < self.subscribers.len() {
            self.subscribers[id].backlog.clear();
            self.subscribers[id].gap = false;
            self.subscribers[id].live = false;
            assert(self@ =~= old(self)@.unsubscribe(id as int));
        }
    }

    /// Closes the hub: the publisher is gone. Subscribers still get what
    /// waits in their backlogs.
    pub fn close(&mut self)
        ensures
            final(self)@ == old(self)@.close(),
    {
        self.open = false;
        assert(self@ =~= old(self)@.close());
    }

    /// How many subscriptions were ever made.
    pub fn subscriptions(&self) -> (count: usize)
        ensures
            count == self@.subscribers.len(),
    {
        self.subscribers.len()
    }

    /// How many samples wait for subscriber `id`; 0 for a number that was
    /// never given out.
    pub fn pending(&self, id: usize) -> (count: usize)
        ensures
            count == if id < self@.subscribers.len() {
                self@.subscribers[id as int].pending.len()
            } else {
                0
            },
    {
        if id < self.subscribers.len() {
            self.subscribers[id].backlog.len()
        } else {
            0
        }
    }
}

} // verus!
