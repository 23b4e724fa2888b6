//! The subscription on which the agents' events arrive.

use vstd::prelude::*;
use crate::broadcast::BroadcastTopic;
use crate::consumer::{ConsumerState, MessageConsumer};
use crate::relay::Decoder;
use crate::routing::RoutingTable;

pub use crate::events::{AgentEvent, ProgressData, TripCard};
pub use crate::relay::ResponseCallback;

verus! {

/// Sets up the consumer of the agents' events: one handler per category,
/// each bound to its routing key and publishing on its own topic. Should the
/// two keys be the same, the key is bound to the trip-card handler, which is
/// registered last.
pub fn subscribe_to_agent_responses<D: Decoder<AgentEvent>>(
    progress_routing_key: &str,
    tripcard_routing_key: &str,
    progress_topic: BroadcastTopic<AgentEvent>,
    tripcard_topic: BroadcastTopic<AgentEvent>,
    progress_decoder: D,
    tripcard_decoder: D,
) -> (consumer: MessageConsumer<ResponseCallback<AgentEvent, D>>)
    requires
        progress_topic.wf(),
        tripcard_topic.wf(),
    ensures
        consumer.wf(),
        consumer.state() == ConsumerState::Running,
        consumer.table().is_bound(progress_routing_key@),
        consumer.table().is_bound(tripcard_routing_key@),
        consumer.table().bound_handler(tripcard_routing_key@).topic() == tripcard_topic,
        progress_routing_key@ != tripcard_routing_key@ ==> {
            &&& consumer.table().keys() == seq![progress_routing_key@, tripcard_routing_key@]
            &&& consumer.table().handlers().len() == 2
            &&& consumer.table().handlers()[0].topic() == progress_topic
            &&& consumer.table().handlers()[1].topic() == tripcard_topic
        },
        progress_routing_key@ == tripcard_routing_key@ ==> {
            &&& consumer.table().keys() == seq![tripcard_routing_key@]
            &&& consumer.table().handlers().len() == 1
        },
{
    let mut table = RoutingTable::new();
    let progress_callback = ResponseCallback::new(progress_topic, progress_decoder);
    let tripcard_callback = ResponseCallback::new(tripcard_topic, tripcard_decoder);
    proof {
        assert forall|i: int| 0 <= i < table.keys().len() implies table.keys()[i]
            != progress_routing_key@ by {}
    }
    table.register(progress_routing_key, progress_callback);
    assert(table.keys() =~= seq![progress_routing_key@]);
    proof {
        if progress_routing_key@ != tripcard_routing_key@ {
            assert forall|i: int| 0 <= i < table.keys().len() implies table.keys()[i]
                != tripcard_routing_key@ by {}
        } else {
            assert(table.keys()[0] == tripcard_routing_key@);
        }
    }
    table.register(tripcard_routing_key, tripcard_callback);
    proof {
        if progress_routing_key@ != tripcard_routing_key@ {
            assert(table.keys() =~= seq![progress_routing_key@, tripcard_routing_key@]);
        }
    }
    MessageConsumer::new(table)
}

} // verus!
