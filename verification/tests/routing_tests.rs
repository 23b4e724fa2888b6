use trip_relay::broadcast::{BroadcastTopic, Received, Subscription};
use trip_relay::consumer::{Delivery, MessageConsumer, Settlement};
use trip_relay::relay::{Decoder, ResponseCallback};
use trip_relay::routing::{Dispatch, RoutingTable};

/// Takes a body as the event it stands for; bodies that start with `!`
/// encode nothing.
struct Plain;

impl Decoder<Vec<u8>> for Plain {
    fn decode(&self, body: &[u8]) -> Option<Vec<u8>> {
        if body.first() == Some(&b'!') {
            None
        } else {
            Some(body.to_vec())
        }
    }
}

type Relay = ResponseCallback<Vec<u8>, Plain>;

fn table() -> (RoutingTable<Relay>, Subscription, Subscription) {
    let progress = BroadcastTopic::new(16);
    let cards = BroadcastTopic::new(16);
    let progress_sub = progress.subscribe();
    let cards_sub = cards.subscribe();
    let mut table = RoutingTable::new();
    table.register("progress", ResponseCallback::new(progress, Plain));
    table.register("tripcard", ResponseCallback::new(cards, Plain));
    (table, progress_sub, cards_sub)
}

fn drain(table: &RoutingTable<Relay>, key: &str, sub: &mut Subscription) -> Vec<Vec<u8>> {
    let topic = table.lookup(key).unwrap().events();
    let mut seen = Vec::new();
    loop {
        match topic.recv(sub) {
            Received::Item(event) => seen.push(event.clone()),
            Received::Lagged(_) => {}
            Received::Empty => return seen,
        }
    }
}

#[test]
fn a_delivery_invokes_the_bound_handler_once_with_its_payload() {
    let (mut table, mut progress, mut cards) = table();
    assert_eq!(table.dispatch("tripcard", b"card"), Dispatch::Handled);
    assert_eq!(drain(&table, "tripcard", &mut cards), vec![b"card".to_vec()]);
    assert_eq!(drain(&table, "progress", &mut progress), Vec::<Vec<u8>>::new());
    assert_eq!(table.lookup("tripcard").unwrap().events().published(), 1);
    assert_eq!(table.lookup("progress").unwrap().events().published(), 0);
}

#[test]
fn an_unmatched_key_is_dropped() {
    let (mut table, _, _) = table();
    assert_eq!(table.dispatch("unknown", b"x"), Dispatch::Unmatched);
    assert_eq!(table.dispatch("", b"x"), Dispatch::Unmatched);
    assert_eq!(table.dispatch("Progress", b"x"), Dispatch::Unmatched);
    assert_eq!(table.lookup("progress").unwrap().events().published(), 0);
    assert_eq!(table.lookup("tripcard").unwrap().events().published(), 0);
    assert!(table.lookup("unknown").is_none());
}

#[test]
fn a_failing_handler_does_not_stop_the_next_dispatch() {
    let (mut table, mut progress, mut cards) = table();
    assert_eq!(table.dispatch("progress", b"!bad"), Dispatch::Failed);
    assert_eq!(table.dispatch("progress", b"good"), Dispatch::Handled);
    assert_eq!(table.dispatch("tripcard", b"card"), Dispatch::Handled);
    assert_eq!(drain(&table, "progress", &mut progress), vec![b"good".to_vec()]);
    assert_eq!(drain(&table, "tripcard", &mut cards), vec![b"card".to_vec()]);
}

#[test]
fn a_key_has_one_handler_at_a_time() {
    let (mut table, _, _) = table();
    assert_eq!(table.len(), 2);
    assert_eq!(table.find("progress"), Some(0));
    assert_eq!(table.find("tripcard"), Some(1));
    assert_eq!(table.find("other"), None);
    table.dispatch("progress", b"one");
    assert_eq!(table.handler(0).events().published(), 1);
    table.register("progress", ResponseCallback::new(BroadcastTopic::new(2), Plain));
    assert_eq!(table.len(), 2);
    assert_eq!(table.find("progress"), Some(0));
    assert_eq!(table.handler(0).events().published(), 0);
    assert_eq!(table.handler(0).events().capacity(), 2);
    table.dispatch("progress", b"two");
    assert_eq!(table.handler(0).events().published(), 1);
    assert_eq!(table.handler(1).events().published(), 0);
}

#[test]
fn the_consumer_acknowledges_whatever_the_outcome() {
    let (table, mut progress, _) = table();
    let mut consumer = MessageConsumer::new(table);
    assert!(consumer.is_running());
    assert_eq!(
        consumer.on_delivery("progress", b"!bad"),
        Settlement::Acknowledge(Dispatch::Failed)
    );
    assert_eq!(
        consumer.on_delivery("nobody", b"x"),
        Settlement::Acknowledge(Dispatch::Unmatched)
    );
    assert_eq!(
        consumer.on_delivery("progress", b"ok"),
        Settlement::Acknowledge(Dispatch::Handled)
    );
    assert_eq!(drain(consumer.routes(), "progress", &mut progress), vec![b"ok".to_vec()]);
}

#[test]
fn a_stopped_consumer_dispatches_nothing() {
    let (table, _, _) = table();
    let mut consumer = MessageConsumer::new(table);
    consumer.on_stream_end();
    assert!(!consumer.is_running());
    assert_eq!(consumer.on_delivery("progress", b"late"), Settlement::Stopped);
    assert_eq!(consumer.routes().lookup("progress").unwrap().events().published(), 0);
}

#[test]
fn a_batch_is_dispatched_in_order_past_failures() {
    let (table, mut progress, mut cards) = table();
    let mut consumer = MessageConsumer::new(table);
    let deliveries = vec![
        Delivery { routing_key: "progress".to_string(), body: b"1".to_vec() },
        Delivery { routing_key: "progress".to_string(), body: b"!2".to_vec() },
        Delivery { routing_key: "nobody".to_string(), body: b"3".to_vec() },
        Delivery { routing_key: "progress".to_string(), body: b"4".to_vec() },
        Delivery { routing_key: "tripcard".to_string(), body: b"5".to_vec() },
    ];
    let outcomes = consumer.on_deliveries(&deliveries);
    assert_eq!(
        outcomes,
        vec![
            Dispatch::Handled,
            Dispatch::Failed,
            Dispatch::Unmatched,
            Dispatch::Handled,
            Dispatch::Handled
        ]
    );
    assert_eq!(
        drain(consumer.routes(), "progress", &mut progress),
        vec![b"1".to_vec(), b"4".to_vec()]
    );
    assert_eq!(drain(consumer.routes(), "tripcard", &mut cards), vec![b"5".to_vec()]);
}

#[test]
fn on_decoded_publishes_an_event_and_fails_on_none() {
    let topic: BroadcastTopic<Vec<u8>> = BroadcastTopic::new(4);
    let mut sub = topic.subscribe();
    let mut relay = ResponseCallback::new(topic, Plain);
    assert!(!relay.on_decoded(None));
    assert!(relay.on_decoded(Some(b"e".to_vec())));
    assert!(!relay.on_message(b"!"));
    assert!(relay.on_message(b"f"));
    assert_eq!(relay.events().recv(&mut sub), Received::Item(&b"e".to_vec()));
    assert_eq!(relay.events().recv(&mut sub), Received::Item(&b"f".to_vec()));
    assert_eq!(relay.events().recv(&mut sub), Received::Empty);
}
