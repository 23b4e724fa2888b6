//! The subscription on which prompts arrive.

use vstd::prelude::*;
use crate::agent_orchestrator::publish::{ProgressData, ProgressStatus};
use crate::consumer::{ConsumerState, MessageConsumer};
use crate::ident::hyphenated;
use crate::relay::{decoded_by, Decoder};
use crate::routing::{Handler, RoutingTable};

pub use crate::prompt::PromptMessage;

verus! {

/// The line that reports the receipt of the prompt with identifier `id`.
pub open spec fn spec_receipt(id: u128) -> Seq<char> {
    "Received prompt with request_id: "@ + hyphenated(id)
}

/// The progress event that reports the receipt of the prompt with
/// identifier `id`.
pub open spec fn spec_receipt_event(id: u128) -> (ProgressStatus, Seq<char>) {
    (ProgressStatus::SingleEvent, spec_receipt(id))
}

/// What the handler of prompts does with a decoded body, as a relation
/// between its queue before and after: a prompt has the receipt under its
/// identifier queued; a body that encoded none is a failure and changes
/// nothing.
pub open spec fn receipted(
    before: Seq<(ProgressStatus, Seq<char>)>,
    decoded: Option<PromptMessage>,
    after: Seq<(ProgressStatus, Seq<char>)>,
    ok: bool,
) -> bool {
    &&& ok == decoded is Some
    &&& ok ==> after == before.push(spec_receipt_event(decoded->0.request_id.value))
    &&& !ok ==> after == before
}

/// Handler of incoming prompts: for each prompt it queues the progress event
/// that reports its receipt. Whoever holds the bus connection takes the
/// queue and publishes it.
pub struct PromptCallback<D> {
    decoder: D,
    outbox: Vec<ProgressData>,
}

impl<D: Decoder<PromptMessage>> PromptCallback<D> {
    /// The progress events queued for publishing, oldest first.
    pub closed spec fn outbox(&self) -> Seq<(ProgressStatus, Seq<char>)> {
        Seq::new(self.outbox@.len(), |i: int| self.outbox@[i]@)
    }

    /// The decoder this handler reads bodies with.
    pub closed spec fn decoder(&self) -> D {
        self.decoder
    }

    /// A handler with nothing queued.
    pub fn new(decoder: D) -> (callback: Self)
        ensures
            callback.outbox() == Seq::<(ProgressStatus, Seq<char>)>::empty(),
            callback.decoder() == decoder,
    {
        let callback = PromptCallback { decoder, outbox: Vec::new() };
        assert(callback.outbox() =~= Seq::<(ProgressStatus, Seq<char>)>::empty());
        callback
    }

    /// What the handler does with a decoded body: a prompt has its receipt
    /// queued; a body that encoded none is a failure and changes nothing.
    pub fn on_decoded(&mut self, decoded: Option<PromptMessage>) -> (ok: bool)
        ensures
            final(self).decoder() == old(self).decoder(),
            receipted(old(self).outbox(), decoded, final(self).outbox(), ok),
    {
        match decoded {
            Some(prompt) => {
                let mut message = String::new();
                message.push_str("Received prompt with request_id: ");
                let id = prompt.request_id.text();
                message.push_str(id.as_str());
                assert(message@ =~= spec_receipt(prompt.request_id.value));
                self.outbox.push(ProgressData { status: ProgressStatus::SingleEvent, message });
                assert(final(self).outbox() =~= old(self).outbox().push(
                    spec_receipt_event(prompt.request_id.value),
                ));
                true
            },
            None => false,
        }
    }

    /// Handles one message body: hands `body` to the decoder, once, and does
    /// with what comes back as `on_decoded` says.
    pub fn on_message(&mut self, body: &[u8]) -> (ok: bool)
        ensures
            final(self).decoder() == old(self).decoder(),
            exists|decoded: Option<PromptMessage>|
                {
                    &&& #[trigger] decoded_by(&old(self).decoder(), body, decoded)
                    &&& receipted(old(self).outbox(), decoded, final(self).outbox(), ok)
                },
    {
        let decoded = self.decoder.decode(body);
        assert(decoded_by(&old(self).decoder(), body, decoded));
        self.on_decoded(decoded)
    }

    /// Takes the queued progress events, oldest first, and leaves the queue
    /// empty.
    pub fn take_outbox(&mut self) -> (events: Vec<ProgressData>)
        ensures
            Seq::new(events@.len(), |i: int| events@[i]@) == old(self).outbox(),
            final(self).outbox() == Seq::<(ProgressStatus, Seq<char>)>::empty(),
            final(self).decoder() == old(self).decoder(),
    {
        let mut events: Vec<ProgressData> = Vec::new();
        std::mem::swap(&mut events, &mut self.outbox);
        assert(Seq::new(events@.len(), |i: int| events@[i]@) =~= old(self).outbox());
        assert(final(self).outbox() =~= Seq::<(ProgressStatus, Seq<char>)>::empty());
        events
    }
}

impl<D: Decoder<PromptMessage>> Handler for PromptCallback<D> {
    open spec fn inv(&self) -> bool {
        true
    }

    open spec fn handled(&self, payload: Seq<u8>, next: &Self, ok: bool) -> bool {
        &&& next.decoder() == self.decoder()
        &&& exists|body: &[u8], decoded: Option<PromptMessage>|
            {
                &&& body@ == payload
                &&& #[trigger] decoded_by(&self.decoder(), body, decoded)
                &&& receipted(self.outbox(), decoded, next.outbox(), ok)
            }
    }

    fn handle(&mut self, payload: &[u8]) -> (ok: bool) {
        self.on_message(payload)
    }
}

/// Sets up the consumer of prompts: one handler, bound to `routing_key`.
pub fn start_subscriber<D: Decoder<PromptMessage>>(routing_key: &str, decoder: D) -> (consumer:
    MessageConsumer<PromptCallback<D>>)
    ensures
        consumer.wf(),
        consumer.state() == ConsumerState::Running,
        consumer.table().keys() == seq![routing_key@],
        consumer.table().handlers().len() == 1,
        consumer.table().handlers()[0].outbox() == Seq::<(ProgressStatus, Seq<char>)>::empty(),
{
    let mut table = RoutingTable::new();
    let callback = PromptCallback::new(decoder);
    proof {
        assert forall|i: int| 0 <= i < table.keys().len() implies table.keys()[i]
            != routing_key@ by {}
    }
    table.register(routing_key, callback);
    assert(table.keys() =~= seq![routing_key@]);
    MessageConsumer::new(table)
}

/// Takes the progress events that the handler bound to `routing_key` has
/// queued, oldest first, for publishing. With no handler bound to the key
/// there is nothing to take.
pub fn take_receipts<D: Decoder<PromptMessage>>(
    consumer: &mut MessageConsumer<PromptCallback<D>>,
    routing_key: &str,
) -> (events: Vec<ProgressData>)
    requires
        old(consumer).wf(),
    ensures
        final(consumer).wf(),
        final(consumer).state() == old(consumer).state(),
        final(consumer).table().keys() == old(consumer).table().keys(),
        final(consumer).table().handlers().len() == old(consumer).table().handlers().len(),
        old(consumer).table().is_bound(routing_key@) ==> {
            &&& Seq::new(events@.len(), |i: int| events@[i]@) == old(consumer).table().bound_handler(
                routing_key@,
            ).outbox()
            &&& final(consumer).table().bound_handler(routing_key@).outbox() == Seq::<
                (ProgressStatus, Seq<char>),
            >::empty()
        },
        !old(consumer).table().is_bound(routing_key@) ==> {
            &&& events@.len() == 0
            &&& final(consumer).table() == old(consumer).table()
        },
{
    let found = consumer.routes().find(routing_key);
    match found {
        Some(i) => {
            let handler = consumer.handler_mut(i);
            handler.take_outbox()
        },
        None => Vec::new(),
    }
}

} // verus!
