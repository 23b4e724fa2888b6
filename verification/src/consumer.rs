//! Message consumer: feeds every delivery of one bus subscription into the
//! routing table and settles it, whatever the handler made of it.

use vstd::prelude::*;
use crate::routing::{dispatched, Dispatch, Handler, RoutingTable};

verus! {

/// One message as the bus delivers it. The handle by which the delivery is
/// acknowledged stays with whoever holds the connection.
#[derive(Debug, Clone, PartialEq, Eq)]
pub struct Delivery {
    /// Tag that selects the handler.
    pub routing_key: String,
    /// The message body.
    pub body: Vec<u8>,
}

impl Delivery {
    /// The delivery as the pair of its key and its body.
    pub open spec fn view(&self) -> (Seq<char>, Seq<u8>) {
        (self.routing_key@, self.body@)
    }
}

/// The pairs of key and body of a run of deliveries.
pub open spec fn views(deliveries: Seq<Delivery>) -> Seq<(Seq<char>, Seq<u8>)> {
    Seq::new(deliveries.len(), |i: int| deliveries[i].view())
}

/// Whether the consumer still takes deliveries.
#[derive(Debug, Clone, Copy, PartialEq, Eq, Structural)]
pub enum ConsumerState {
    /// The subscription is live.
    Running,
    /// The subscription ended or failed. Nothing restarts it.
    Stopped,
}

/// What to tell the bus about one delivery.
#[derive(Debug, Clone, Copy, PartialEq, Eq, Structural)]
pub enum Settlement {
    /// Acknowledge it. The message was dispatched once, with this outcome,
    /// and is not to be delivered again even where the handler failed.
    Acknowledge(Dispatch),
    /// The consumer has stopped: the message was not dispatched and is not
    /// acknowledged.
    Stopped,
}

/// A run of dispatches, one per delivery and in their order. `states` are
/// the handlers before the first dispatch, between each two and after the
/// last: each delivery is dispatched once, from the state that the one
/// before it left, whatever that one's outcome was.
pub open spec fn ran<H: Handler>(
    keys: Seq<Seq<char>>,
    states: Seq<Seq<H>>,
    deliveries: Seq<(Seq<char>, Seq<u8>)>,
    outcomes: Seq<Dispatch>,
) -> bool {
    &&& states.len() == deliveries.len() + 1
    &&& outcomes.len() == deliveries.len()
    &&& forall|k: int|
        0 <= k < deliveries.len() ==> dispatched(
            keys,
            states[k],
            deliveries[k].0,
            deliveries[k].1,
            states[k + 1],
            #[trigger] outcomes[k],
        )
}

/// Owns the routing table of one subscription.
pub struct MessageConsumer<H> {
    table: RoutingTable<H>,
    state: ConsumerState,
}

impl<H: Handler> MessageConsumer<H> {
    /// The routing table.
    pub closed spec fn table(&self) -> RoutingTable<H> {
        self.table
    }

    /// Whether the consumer runs or has stopped.
    pub closed spec fn state(&self) -> ConsumerState {
        self.state
    }

    /// The routing table is well formed.
    pub open spec fn wf(&self) -> bool {
        self.table().wf()
    }

    /// A running consumer over `table`. Handlers are registered before
    /// consumption begins: the table is handed over complete.
    pub fn new(table: RoutingTable<H>) -> (consumer: Self)
        requires
            table.wf(),
        ensures
            consumer.wf(),
            consumer.table() == table,
            consumer.state() == ConsumerState::Running,
    {
        MessageConsumer { table, state: ConsumerState::Running }
    }

    /// The routing table, to look handlers up.
    pub fn routes(&self) -> (table: &RoutingTable<H>)
        ensures
            *table == self.table(),
    {
        &self.table
    }

    /// The handler at index `i` of the routing table, to work on it. The keys
    /// stay as they were registered.
    pub fn handler_mut(&mut self, i: usize) -> (h: &mut H)
        requires
            old(self).wf(),
            i < old(self).table().handlers().len(),
        ensures
            *h == old(self).table().handlers()[i as int],
            final(self).state() == old(self).state(),
            final(self).table().keys() == old(self).table().keys(),
            final(self).table().handlers() == old(self).table().handlers().update(
                i as int,
                *final(h),
            ),
    {
        self.table.handler_mut(i)
    }

    /// Whether the consumer still takes deliveries.
    pub fn is_running(&self) -> (running: bool)
        ensures
            running == (self.state() == ConsumerState::Running),
    {
        match self.state {
            ConsumerState::Running => true,
            ConsumerState::Stopped => false,
        }
    }

    /// One delivery. A running consumer dispatches it once and has it
    /// acknowledged whatever the outcome; a stopped one leaves it alone.
    pub fn on_delivery(&mut self, routing_key: &str, body: &[u8]) -> (settlement: Settlement)
        requires
            old(self).wf(),
        ensures
            final(self).wf(),
            final(self).state() == old(self).state(),
            final(self).table().keys() == old(self).table().keys(),
            old(self).state() == ConsumerState::Stopped ==> {
                &&& settlement == Settlement::Stopped
                &&& final(self).table() == old(self).table()
            },
            old(self).state() == ConsumerState::Running ==> {
                &&& settlement matches Settlement::Acknowledge(outcome)
                &&& dispatched(
                    old(self).table().keys(),
                    old(self).table().handlers(),
                    routing_key@,
                    body@,
                    final(self).table().handlers(),
                    outcome,
                )
            },
    {
        match self.state {
            ConsumerState::Stopped => Settlement::Stopped,
            ConsumerState::Running => {
                let outcome = self.table.dispatch(routing_key, body);
                Settlement::Acknowledge(outcome)
            },
        }
    }

    /// The subscription ended or failed in mid-stream: the consumer stops
    /// for good. The table stays as it is.
    pub fn on_stream_end(&mut self)
        ensures
            final(self).state() == ConsumerState::Stopped,
            final(self).table() == old(self).table(),
    {
        self.state = ConsumerState::Stopped;
    }

    /// A batch of deliveries, in order. Every one of them is dispatched and
    /// acknowledged, also those that follow a failure.
    pub fn on_deliveries(&mut self, deliveries: &Vec<Delivery>) -> (outcomes: Vec<Dispatch>)
        requires
            old(self).wf(),
            old(self).state() == ConsumerState::Running,
        ensures
            final(self).wf(),
            final(self).state() == ConsumerState::Running,
            final(self).table().keys() == old(self).table().keys(),
            exists|states: Seq<Seq<H>>|
                {
                    &&& #[trigger] ran(
                        old(self).table().keys(),
                        states,
                        views(deliveries@),
                        outcomes@,
                    )
                    &&& states.first() == old(self).table().handlers()
                    &&& states.last() == final(self).table().handlers()
                },
    {
        let mut outcomes: Vec<Dispatch> = Vec::new();
        let ghost keys = self.table().keys();
        let ghost mut states: Seq<Seq<H>> = seq![self.table().handlers()];
        let mut i: usize = 0;
        while i < deliveries.len()
            invariant
                i <= deliveries.len(),
                self.wf(),
                self.state() == ConsumerState::Running,
                self.table().keys() == keys,
                ran(keys, states, views(deliveries@).take(i as int), outcomes@),
                states.first() == old(self).table().handlers(),
                states.last() == self.table().handlers(),
            decreases deliveries.len() - i,
        {
            let delivery = &deliveries[i];
            let outcome = self.table.dispatch(
                delivery.routing_key.as_str(),
                delivery.body.as_slice(),
            );
            outcomes.push(outcome);
            proof {
                states = states.push(self.table().handlers());
            }
            i = i + 1;
        }
        assert(views(deliveries@).take(i as int) =~= views(deliveries@));
        outcomes
    }
}

/// Isolation. In a run of dispatches, a handler's failure on one message
/// neither blocks nor drops the next: the next message is dispatched all the
/// same, once, from the state that the failed dispatch left.
pub proof fn lemma_failure_does_not_block<H: Handler>(
    keys: Seq<Seq<char>>,
    states: Seq<Seq<H>>,
    deliveries: Seq<(Seq<char>, Seq<u8>)>,
    outcomes: Seq<Dispatch>,
    k: int,
)
    requires
        ran(keys, states, deliveries, outcomes),
        0 <= k,
        k + 1 < deliveries.len(),
        outcomes[k] == Dispatch::Failed,
    ensures
        dispatched(
            keys,
            states[k],
            deliveries[k].0,
            deliveries[k].1,
            states[k + 1],
            Dispatch::Failed,
        ),
        dispatched(
            keys,
            states[k + 1],
            deliveries[k + 1].0,
            deliveries[k + 1].1,
            states[k + 2],
            outcomes[k + 1],
        ),
{
    assert(outcomes[k] == Dispatch::Failed);
    let _ = outcomes[k + 1];
}

} // verus!
