//! The handler that relays bus messages to a broadcast topic: it decodes a
//! message body and publishes the event to every current subscriber.

use vstd::prelude::*;
use crate::broadcast::{BroadcastTopic, TopicModel};
use crate::routing::Handler;

verus! {

/// Turns a message body into an event. How is the implementor's business:
/// nothing is assumed of the result.
pub trait Decoder<T> {
    /// The event that `body` encodes, or `None` where it encodes none.
    fn decode(&self, body: &[u8]) -> Option<T>;
}

/// Whether `decoded` is what `decoder` returned for `body`. Nothing is
/// assumed of a decoder, so this holds of a value only once the call that
/// returned it has been made.
pub open spec fn decoded_by<T, D: Decoder<T>>(decoder: &D, body: &[u8], decoded: Option<T>) -> bool {
    call_ensures(D::decode, (decoder, body), decoded)
}

/// What a relay does with a decoded body, as a relation between its topic
/// before and after: an event is published, unless the topic's count stands
/// at `u64::MAX`; a body that encoded none is a failure; a failure changes
/// nothing.
pub open spec fn relayed<T>(
    before: TopicModel<T>,
    decoded: Option<T>,
    after: TopicModel<T>,
    ok: bool,
) -> bool {
    &&& ok == (decoded is Some && before.history.len() < u64::MAX)
    &&& ok ==> after == before.publish(decoded->0)
    &&& !ok ==> after == before
}

/// Handler bound to one routing key: decodes each body and publishes the
/// event on its topic.
pub struct ResponseCallback<T, D> {
    topic: BroadcastTopic<T>,
    decoder: D,
}

impl<T, D: Decoder<T>> ResponseCallback<T, D> {
    /// The topic this handler publishes on.
    pub closed spec fn topic(&self) -> BroadcastTopic<T> {
        self.topic
    }

    /// The decoder this handler reads bodies with.
    pub closed spec fn decoder(&self) -> D {
        self.decoder
    }

    /// The topic is well formed.
    pub open spec fn wf(&self) -> bool {
        self.topic().wf()
    }

    /// A handler that publishes on `topic` what `decoder` makes of a body.
    pub fn new(topic: BroadcastTopic<T>, decoder: D) -> (callback: Self)
        requires
            topic.wf(),
        ensures
            callback.wf(),
            callback.topic() == topic,
            callback.decoder() == decoder,
    {
        ResponseCallback { topic, decoder }
    }

    /// The topic, to subscribe to it and to receive from it.
    pub fn events(&self) -> (topic: &BroadcastTopic<T>)
        ensures
            *topic == self.topic(),
    {
        &self.topic
    }

    /// What the handler does with a decoded body: an event is published to
    /// the topic; a body that encoded none is a failure and changes nothing.
    /// So is an event beyond the topic's count of `u64::MAX`.
    pub fn on_decoded(&mut self, decoded: Option<T>) -> (ok: bool)
        requires
            old(self).wf(),
        ensures
            final(self).wf(),
            final(self).decoder() == old(self).decoder(),
            relayed(old(self).topic()@, decoded, final(self).topic()@, ok),
    {
        match decoded {
            Some(event) => {
                if self.topic.published() < u64::MAX {
                    self.topic.publish(event);
                    true
                } else {
                    false
                }
            },
            None => false,
        }
    }

    /// Handles one message body: hands `body` to the decoder, once, and does
    /// with what comes back as `on_decoded` says.
    pub fn on_message(&mut self, body: &[u8]) -> (ok: bool)
        requires
            old(self).wf(),
        ensures
            final(self).wf(),
            final(self).decoder() == old(self).decoder(),
            exists|decoded: Option<T>|
                {
                    &&& #[trigger] decoded_by(&old(self).decoder(), body, decoded)
                    &&& relayed(old(self).topic()@, decoded, final(self).topic()@, ok)
                },
    {
        let decoded = self.decoder.decode(body);
        assert(decoded_by(&old(self).decoder(), body, decoded));
        self.on_decoded(decoded)
    }
}

impl<T, D: Decoder<T>> Handler for ResponseCallback<T, D> {
    open spec fn inv(&self) -> bool {
        self.wf()
    }

    open spec fn handled(&self, payload: Seq<u8>, next: &Self, ok: bool) -> bool {
        &&& next.decoder() == self.decoder()
        &&& exists|body: &[u8], decoded: Option<T>|
            {
                &&& body@ == payload
                &&& #[trigger] decoded_by(&self.decoder(), body, decoded)
                &&& relayed(self.topic()@, decoded, next.topic()@, ok)
            }
    }

    fn handle(&mut self, payload: &[u8]) -> (ok: bool) {
        self.on_message(payload)
    }
}

} // verus!
