//! The subscription on which trip cards arrive.

use vstd::prelude::*;
use crate::broadcast::BroadcastTopic;
use crate::consumer::{ConsumerState, MessageConsumer};
use crate::relay::Decoder;
use crate::routing::RoutingTable;

pub use crate::events::TripCard;
pub use crate::relay::ResponseCallback;

verus! {

/// Sets up the consumer of trip cards: one handler, bound to `routing_key`,
/// that publishes what `decoder` makes of each body on `topic`.
pub fn subscribe_to_trip_cards<D: Decoder<TripCard>>(
    routing_key: &str,
    topic: BroadcastTopic<TripCard>,
    decoder: D,
) -> (consumer: MessageConsumer<ResponseCallback<TripCard, D>>)
    requires
        topic.wf(),
    ensures
        consumer.wf(),
        consumer.state() == ConsumerState::Running,
        consumer.table().keys() == seq![routing_key@],
        consumer.table().handlers().len() == 1,
        consumer.table().handlers()[0].topic() == topic,
{
    let mut table = RoutingTable::new();
    let callback = ResponseCallback::new(topic, decoder);
    proof {
        assert forall|i: int| 0 <= i < table.keys().len() implies table.keys()[i]
            != routing_key@ by {}
    }
    table.register(routing_key, callback);
    assert(table.keys() =~= seq![routing_key@]);
    MessageConsumer::new(table)
}

} // verus!
