//! Bounded, lossy, multi-subscriber topic: one per event category.
//!
//! A topic keeps the last `capacity` events. A subscription is a position in
//! the stream; a subscriber that falls more than `capacity` events behind
//! loses the oldest ones and is told how many. Publishing never waits for
//! anyone.

use vstd::prelude::*;
use std::collections::VecDeque;

verus! {

/// The mathematical content of a topic: its capacity and every event ever
/// published on it, oldest first.
pub struct TopicModel<T> {
    pub capacity: nat,
    pub history: Seq<T>,
}

impl<T> TopicModel<T> {
    /// Position of the oldest event that is still retained.
    pub open spec fn oldest(self) -> nat {
        if self.history.len() <= self.capacity {
            0
        } else {
            (self.history.len() - self.capacity) as nat
        }
    }

    /// The events still retained, oldest first.
    pub open spec fn retained(self) -> Seq<T> {
        self.history.subrange(self.oldest() as int, self.history.len() as int)
    }

    /// The topic after one more event.
    pub open spec fn publish(self, event: T) -> Self {
        TopicModel { capacity: self.capacity, history: self.history.push(event) }
    }

    /// The topic after a run of events, published in order.
    pub open spec fn publish_all(self, events: Seq<T>) -> Self {
        TopicModel { capacity: self.capacity, history: self.history + events }
    }

    /// Where a subscription made now starts: after everything published.
    pub open spec fn subscribe(self) -> nat {
        self.history.len()
    }

    /// How many events a subscriber at `position` has lost for good.
    pub open spec fn missed(self, position: nat) -> nat {
        if position < self.oldest() {
            (self.oldest() - position) as nat
        } else {
            0
        }
    }

    /// Position of the next event a subscriber at `position` can still get.
    pub open spec fn resume(self, position: nat) -> nat {
        if position < self.oldest() {
            self.oldest()
        } else {
            position
        }
    }

    /// The events a subscriber at `position` has yet to observe, in publish
    /// order.
    pub open spec fn pending(self, position: nat) -> Seq<T> {
        if position < self.history.len() {
            self.history.subrange(self.resume(position) as int, self.history.len() as int)
        } else {
            Seq::empty()
        }
    }

    /// What one receive gives a subscriber at `position`.
    pub open spec fn receive(self, position: nat) -> Received<T> {
        if position < self.oldest() {
            Received::Lagged(self.missed(position) as u64)
        } else if position < self.history.len() {
            Received::Item(self.history[position as int])
        } else {
            Received::Empty
        }
    }

    /// Where the subscriber stands after that receive.
    pub open spec fn advance(self, position: nat) -> nat {
        if position < self.oldest() {
            self.oldest()
        } else if position < self.history.len() {
            position + 1
        } else {
            position
        }
    }
}

/// Outcome of one receive on a subscription.
#[derive(Debug, Clone, Copy, PartialEq, Eq)]
pub enum Received<T> {
    /// The next event in publish order.
    Item(T),
    /// The subscriber fell behind: this many of its oldest unread events are
    /// gone. The subscription now stands at the oldest retained event.
    Lagged(u64),
    /// Nothing new has been published.
    Empty,
}

/// A receive handle: the position of the next event its owner will observe.
#[derive(Debug)]
pub struct Subscription {
    next: u64,
}

impl Subscription {
    /// Position in the stream of the next event to observe.
    pub closed spec fn position(&self) -> nat {
        self.next as nat
    }

    /// The position as a number.
    pub fn next_position(&self) -> (p: u64)
        ensures
            p == self.position(),
    {
        self.next
    }
}

/// One bounded channel of events of type `T`.
pub struct BroadcastTopic<T> {
    capacity: usize,
    retained: VecDeque<T>,
    published: u64,
    history: Ghost<Seq<T>>,
}

impl<T> View for BroadcastTopic<T> {
    type V = TopicModel<T>;

    closed spec fn view(&self) -> TopicModel<T> {
        TopicModel { capacity: self.capacity as nat, history: self.history@ }
    }
}

impl<T> BroadcastTopic<T> {
    /// The representation holds exactly the retained tail of the history.
    pub closed spec fn wf(&self) -> bool {
        &&& self.capacity >= 1
        &&& self.published == self.history@.len()
        &&& self.retained@ == self@.retained()
    }

    /// A topic that retains up to `capacity` events, with nothing published.
    pub fn new(capacity: usize) -> (topic: Self)
        requires
            capacity >= 1,
        ensures
            topic.wf(),
            topic@.capacity == capacity,
            topic@.history == Seq::<T>::empty(),
    {
        let topic = BroadcastTopic {
            capacity,
            retained: VecDeque::new(),
            published: 0,
            history: Ghost(Seq::empty()),
        };
        assert(topic.retained@ =~= topic@.retained());
        topic
    }

    /// The number of events the topic retains at most.
    pub fn capacity(&self) -> (n: usize)
        ensures
            n == self@.capacity,
    {
        self.capacity
    }

    /// The number of events published so far.
    pub fn published(&self) -> (n: u64)
        requires
            self.wf(),
        ensures
            n == self@.history.len(),
    {
        self.published
    }

    /// The number of events that are no longer retained: what a subscriber
    /// that never received anything has lost by now.
    pub fn dropped(&self) -> (n: u64)
        requires
            self.wf(),
        ensures
            n == self@.oldest(),
    {
        self.published - (self.retained.len() as u64)
    }

    /// Publishes `event` to all current subscribers. Never waits: when the
    /// topic is full the oldest retained event gives way.
    pub fn publish(&mut self, event: T)
        requires
            old(self).wf(),
            old(self)@.history.len() < u64::MAX,
        ensures
            final(self).wf(),
            final(self)@ == old(self)@.publish(event),
    {
        if self.retained.len() >= self.capacity {
            let _ = self.retained.pop_front();
        }
        self.retained.push_back(event);
        self.published = self.published + 1;
        proof {
            self.history@ = self.history@.push(event);
            assert(self.retained@ =~= self@.retained());
        }
    }

    /// A fresh receive handle. It starts after everything published so far.
    pub fn subscribe(&self) -> (sub: Subscription)
        requires
            self.wf(),
        ensures
            sub.position() == self@.subscribe(),
    {
        Subscription { next: self.published }
    }

    /// The next event for `sub`, if there is one, and moves `sub` past it.
    /// A handle that stands beyond this topic's stream, as only one made on
    /// another topic can, gets nothing and stays where it is.
    pub fn recv<'a>(&'a self, sub: &mut Subscription) -> (got: Received<&'a T>)
        requires
            self.wf(),
        ensures
            final(sub).position() == self@.advance(old(sub).position()),
            match got {
                Received::Item(event) => self@.receive(old(sub).position()) == Received::Item(
                    *event,
                ),
                Received::Lagged(n) => self@.receive(old(sub).position()) == Received::<
                    T,
                >::Lagged(n),
                Received::Empty => self@.receive(old(sub).position()) == Received::<T>::Empty,
            },
    {
        let len: u64 = self.retained.len() as u64;
        let oldest: u64 = self.published - len;
        if sub.next < oldest {
            let lost: u64 = oldest - sub.next;
            sub.next = oldest;
            Received::Lagged(lost)
        } else if sub.next < self.published {
            let index: usize = (sub.next - oldest) as usize;
            sub.next = sub.next + 1;
            Received::Item(&self.retained[index])
        } else {
            Received::Empty
        }
    }

    /// How many events `sub` can still receive.
    pub fn backlog(&self, sub: &Subscription) -> (n: usize)
        requires
            self.wf(),
        ensures
            n == self@.pending(sub.position()).len(),
    {
        let len: u64 = self.retained.len() as u64;
        let oldest: u64 = self.published - len;
        if sub.next < oldest {
            self.retained.len()
        } else if sub.next < self.published {
            (self.published - sub.next) as usize
        } else {
            0
        }
    }
}

/// Fan-out. An event published on a topic becomes the last pending event of
/// every subscription made before it, once, behind all that the subscription
/// had pending; only a subscription whose backlog already fills the topic
/// gives up its oldest unread event for it.
pub proof fn lemma_publish_reaches_every_subscriber<T>(
    topic: TopicModel<T>,
    event: T,
    positions: Seq<nat>,
)
    requires
        topic.capacity >= 1,
        forall|i: int| 0 <= i < positions.len() ==> positions[i] <= topic.history.len(),
    ensures
        forall|i: int|
            0 <= i < positions.len() ==> {
                let before = topic.pending(#[trigger] positions[i]);
                let after = topic.publish(event).pending(positions[i]);
                &&& after.len() >= 1
                &&& after.last() == event
                &&& before.len() < topic.capacity ==> after == before.push(event)
                &&& before.len() >= topic.capacity ==> after == before.drop_first().push(event)
            },
{
    assert forall|i: int| 0 <= i < positions.len() implies {
        let before = topic.pending(#[trigger] positions[i]);
        let after = topic.publish(event).pending(positions[i]);
        &&& after.len() >= 1
        &&& after.last() == event
        &&& before.len() < topic.capacity ==> after == before.push(event)
        &&& before.len() >= topic.capacity ==> after == before.drop_first().push(event)
    } by {
        let before = topic.pending(positions[i]);
        let after = topic.publish(event).pending(positions[i]);
        if before.len() < topic.capacity {
            assert(after =~= before.push(event));
        } else {
            assert(after =~= before.drop_first().push(event));
        }
    }
}

/// Order. One receive takes the first pending event and leaves the rest, in
/// publish order; a subscriber that has lost events is told so first and
/// keeps what is still retained; with nothing pending nothing moves.
pub proof fn lemma_receive_in_publish_order<T>(topic: TopicModel<T>, position: nat)
    requires
        topic.capacity >= 1,
        position <= topic.history.len(),
    ensures
        position <= topic.advance(position) <= topic.history.len(),
        topic.missed(position) == 0 && topic.pending(position).len() > 0 ==> {
            &&& topic.receive(position) == Received::Item(topic.pending(position)[0])
            &&& topic.advance(position) == position + 1
            &&& topic.pending(topic.advance(position)) == topic.pending(position).drop_first()
        },
        topic.missed(position) > 0 ==> {
            &&& topic.receive(position) == Received::<T>::Lagged(topic.missed(position) as u64)
            &&& topic.missed(topic.advance(position)) == 0
            &&& topic.pending(topic.advance(position)) == topic.pending(position)
        },
        topic.missed(position) == 0 && topic.pending(position).len() == 0 ==> {
            &&& topic.receive(position) == Received::<T>::Empty
            &&& topic.advance(position) == position
        },
{
    if topic.missed(position) == 0 && topic.pending(position).len() > 0 {
        assert(topic.pending(topic.advance(position)) =~= topic.pending(position).drop_first());
    }
}

/// No replay. A subscription made after an event was published never
/// observes it: it starts with nothing pending, and whatever is published
/// later, every position it reads lies behind that event, so that what it
/// has pending is a tail of the later events alone.
pub proof fn lemma_no_replay<T>(topic: TopicModel<T>, later: Seq<T>, k: int)
    requires
        topic.capacity >= 1,
        0 <= k < topic.history.len(),
    ensures
        topic.pending(topic.subscribe()) == Seq::<T>::empty(),
        topic.receive(topic.subscribe()) == Received::<T>::Empty,
        topic.publish_all(later).resume(topic.subscribe()) > k,
        topic.publish_all(later).pending(topic.subscribe()).len() <= later.len(),
        topic.publish_all(later).pending(topic.subscribe()) == later.subrange(
            later.len() - topic.publish_all(later).pending(topic.subscribe()).len(),
            later.len() as int,
        ),
{
    let position = topic.subscribe();
    let after = topic.publish_all(later);
    assert(topic.pending(position) =~= Seq::<T>::empty());
    let pending = after.pending(position);
    assert(pending =~= later.subrange(later.len() - pending.len(), later.len() as int));
}

/// Lag. A subscriber more than `capacity` events behind has lost exactly
/// the excess: its next receive reports that number, and what it can still
/// get is the retained window, `capacity` events long.
pub proof fn lemma_lagging_subscriber_loses_oldest<T>(topic: TopicModel<T>, position: nat)
    requires
        topic.capacity >= 1,
        position <= topic.history.len(),
        topic.history.len() - position > topic.capacity,
    ensures
        topic.missed(position) == topic.history.len() - position - topic.capacity,
        topic.receive(position) == Received::<T>::Lagged(topic.missed(position) as u64),
        topic.pending(position) == topic.retained(),
        topic.pending(position).len() == topic.capacity,
        topic.advance(position) == topic.oldest(),
{
}

/// Publishing in one run or event by event gives the same topic.
pub proof fn lemma_publish_all_step<T>(topic: TopicModel<T>, events: Seq<T>, event: T)
    ensures
        topic.publish_all(events.push(event)) == topic.publish_all(events).publish(event),
        topic.publish_all(Seq::<T>::empty()) == topic,
{
    assert(topic.history + events.push(event) =~= (topic.history + events).push(event));
    assert(topic.history + Seq::<T>::empty() =~= topic.history);
}

} // verus!
