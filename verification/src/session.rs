//! Session manager: the life of one connected client as a state machine.
//!
//! Whoever holds the connection waits for the next of a client frame, a bus
//! event or a failed send, hands it to the session, and carries out the
//! action that comes back. The session decides; it performs no I/O.

use vstd::prelude::*;
use crate::broadcast::{BroadcastTopic, Received, Subscription, TopicModel};
use crate::events::WireEvent;
use crate::ident::{hyphenated, is_random_layout, CorrelationId, LAYOUT_MASK, LAYOUT_RANDOM};
use crate::json::{
    error_envelope,
    event_envelope,
    json_quoted,
    spec_error_envelope,
    spec_event_envelope,
};
use crate::prompt::{
    accept_prompt,
    spec_confirmation,
    spec_message_json,
    spec_response_json,
    PromptRequest,
    RequestError,
};

verus! {

/// Where a session stands. `Closed` is terminal.
#[derive(Debug, Clone, Copy, PartialEq, Eq, Structural)]
pub enum SessionState {
    /// Serving the client.
    Open,
    /// A send failed: the subscriptions are being released.
    Closing,
    /// Over. Nothing is sent or forwarded any more.
    Closed,
}

/// One frame from the client, text frames already parsed.
#[derive(Debug, Clone, PartialEq, Eq)]
pub enum ClientFrame {
    /// A text frame that parsed as a request.
    Request(PromptRequest),
    /// A text frame that did not parse, with the parser's words.
    Malformed(String),
    /// A keep-alive probe with its payload.
    Ping(Vec<u8>),
    /// The client closes the connection.
    Close,
    /// A frame of a kind the session has no use for.
    Unsupported,
    /// Reading from the connection failed.
    TransportError,
    /// The connection ended without a close frame.
    StreamEnded,
}

/// What the holder of the connection is to do next.
#[derive(Debug, Clone, PartialEq, Eq)]
pub enum SessionAction {
    /// Nothing.
    Nothing,
    /// Send this text frame.
    Send(String),
    /// Publish `publish` on the bus, whose failure is logged and no more, then
    /// send the text frame `reply`.
    PublishThenSend { publish: String, reply: String },
    /// Answer a ping with a pong of the same payload.
    Pong(Vec<u8>),
    /// Release the session's subscriptions and stop serving.
    Release,
}

/// A client frame by its content.
pub enum FrameModel {
    Request(Seq<char>),
    Malformed(Seq<char>),
    Ping(Seq<u8>),
    Close,
    Unsupported,
    TransportError,
    StreamEnded,
}

/// An action by its content.
pub enum ActionModel {
    Nothing,
    Send(Seq<char>),
    PublishThenSend { publish: Seq<char>, reply: Seq<char> },
    Pong(Seq<u8>),
    Release,
}

impl View for ClientFrame {
    type V = FrameModel;

    open spec fn view(&self) -> FrameModel {
        match self {
            ClientFrame::Request(request) => FrameModel::Request(request.prompt@),
            ClientFrame::Malformed(detail) => FrameModel::Malformed(detail@),
            ClientFrame::Ping(payload) => FrameModel::Ping(payload@),
            ClientFrame::Close => FrameModel::Close,
            ClientFrame::Unsupported => FrameModel::Unsupported,
            ClientFrame::TransportError => FrameModel::TransportError,
            ClientFrame::StreamEnded => FrameModel::StreamEnded,
        }
    }
}

impl View for SessionAction {
    type V = ActionModel;

    open spec fn view(&self) -> ActionModel {
        match self {
            SessionAction::Nothing => ActionModel::Nothing,
            SessionAction::Send(text) => ActionModel::Send(text@),
            SessionAction::PublishThenSend { publish, reply } => ActionModel::PublishThenSend {
                publish: publish@,
                reply: reply@,
            },
            SessionAction::Pong(payload) => ActionModel::Pong(payload@),
            SessionAction::Release => ActionModel::Release,
        }
    }
}

/// The error a client is sent for a frame that did not parse.
pub open spec fn spec_malformed_message(detail: Seq<char>) -> Seq<char> {
    "Invalid request format: "@ + detail
}

/// The state after a client frame. Only an open session reacts; a close
/// frame, a transport error and the end of the stream close it.
pub open spec fn spec_frame_state(state: SessionState, frame: FrameModel) -> SessionState {
    match state {
        SessionState::Open => match frame {
            FrameModel::Close | FrameModel::TransportError | FrameModel::StreamEnded =>
                SessionState::Closed,
            _ => SessionState::Open,
        },
        _ => state,
    }
}

/// The action on a client frame, where `id` is the identifier minted for it.
pub open spec fn spec_frame_action(state: SessionState, frame: FrameModel, id: u128) -> ActionModel {
    match state {
        SessionState::Open => match frame {
            FrameModel::Request(prompt) => if prompt.len() == 0 {
                ActionModel::Send(
                    spec_error_envelope(json_quoted(RequestError::EmptyPrompt.spec_message())),
                )
            } else {
                ActionModel::PublishThenSend {
                    publish: spec_message_json(id, prompt),
                    reply: spec_response_json(spec_confirmation(), prompt, hyphenated(id)),
                }
            },
            FrameModel::Malformed(detail) => ActionModel::Send(
                spec_error_envelope(json_quoted(spec_malformed_message(detail))),
            ),
            FrameModel::Ping(payload) => ActionModel::Pong(payload),
            FrameModel::Unsupported => ActionModel::Nothing,
            FrameModel::Close | FrameModel::TransportError | FrameModel::StreamEnded =>
                ActionModel::Release,
        },
        _ => ActionModel::Nothing,
    }
}

/// The action on a bus event of kind `kind` with the JSON payload `data`: an
/// open session forwards it in a typed envelope.
pub open spec fn spec_event_action(
    state: SessionState,
    kind: Seq<char>,
    data: Seq<char>,
) -> ActionModel {
    match state {
        SessionState::Open => ActionModel::Send(spec_event_envelope(json_quoted(kind), data)),
        _ => ActionModel::Nothing,
    }
}

/// The live state of one connected client: where it stands, and its receive
/// handles into the topics it listens to.
#[derive(Debug)]
pub struct Session {
    state: SessionState,
    subscriptions: Vec<Subscription>,
    missed: u64,
}

impl Session {
    /// Where the session stands.
    pub closed spec fn state(&self) -> SessionState {
        self.state
    }

    /// The positions of the session's receive handles, in the order in which
    /// they were made.
    pub closed spec fn positions(&self) -> Seq<nat> {
        Seq::new(self.subscriptions@.len(), |i: int| self.subscriptions@[i].position())
    }

    /// How many bus events the session has lost by lagging, over all its
    /// handles; it stops counting at `u64::MAX`.
    pub closed spec fn missed(&self) -> nat {
        self.missed as nat
    }

    /// The count of lost events after `lost` more.
    pub open spec fn spec_missed_after(missed: nat, lost: nat) -> nat {
        if missed + lost > u64::MAX {
            u64::MAX as nat
        } else {
            missed + lost
        }
    }

    /// A closed session holds no subscription.
    pub open spec fn wf(&self) -> bool {
        self.state() == SessionState::Closed ==> self.positions().len() == 0
    }

    /// The handles after a step that leaves the session in `state`: a closed
    /// session has released them all.
    pub open spec fn spec_kept(state: SessionState, positions: Seq<nat>) -> Seq<nat> {
        if state == SessionState::Closed {
            Seq::empty()
        } else {
            positions
        }
    }

    /// A session for a client that has just connected.
    pub fn open() -> (session: Session)
        ensures
            session.wf(),
            session.state() == SessionState::Open,
            session.positions() == Seq::<nat>::empty(),
            session.missed() == 0,
    {
        let session = Session { state: SessionState::Open, subscriptions: Vec::new(), missed: 0 };
        assert(session.positions() =~= Seq::<nat>::empty());
        session
    }

    /// Where the session stands.
    pub fn current(&self) -> (state: SessionState)
        ensures
            state == self.state(),
    {
        self.state
    }

    /// Whether the session still serves its client.
    pub fn is_open(&self) -> (open: bool)
        ensures
            open == (self.state() == SessionState::Open),
    {
        match self.state {
            SessionState::Open => true,
            _ => false,
        }
    }

    /// How many bus events the session has lost by lagging.
    pub fn missed_events(&self) -> (n: u64)
        ensures
            n == self.missed(),
    {
        self.missed
    }

    /// The number of receive handles the session holds.
    pub fn subscription_count(&self) -> (n: usize)
        ensures
            n == self.positions().len(),
    {
        self.subscriptions.len()
    }

    /// Subscribes an open session to `topic` and returns the slot of the new
    /// handle, which starts behind everything published so far. A session
    /// that is not open subscribes to nothing.
    pub fn subscribe<T>(&mut self, topic: &BroadcastTopic<T>) -> (slot: Option<usize>)
        requires
            old(self).wf(),
            topic.wf(),
        ensures
            final(self).wf(),
            final(self).state() == old(self).state(),
            final(self).missed() == old(self).missed(),
            old(self).state() == SessionState::Open ==> {
                &&& slot == Some(old(self).positions().len() as usize)
                &&& final(self).positions() == old(self).positions().push(topic@.subscribe())
            },
            old(self).state() != SessionState::Open ==> {
                &&& slot is None
                &&& final(self).positions() == old(self).positions()
            },
    {
        if !self.is_open() {
            return None;
        }
        let slot = self.subscriptions.len();
        self.subscriptions.push(topic.subscribe());
        assert(final(self).positions() =~= old(self).positions().push(topic@.subscribe()));
        Some(slot)
    }

    fn release(&mut self)
        ensures
            final(self).state() == old(self).state(),
            final(self).missed() == old(self).missed(),
            final(self).positions() == Seq::<nat>::empty(),
    {
        self.subscriptions.clear();
        assert(final(self).positions() =~= Seq::<nat>::empty());
    }

    /// One client frame, with the identifier to use should the frame be a
    /// request that is accepted.
    pub fn on_frame_with(&mut self, frame: ClientFrame, id: CorrelationId) -> (action:
        SessionAction)
        requires
            old(self).wf(),
        ensures
            final(self).wf(),
            final(self).state() == spec_frame_state(old(self).state(), frame@),
            final(self).positions() == Self::spec_kept(
                final(self).state(),
                old(self).positions(),
            ),
            final(self).missed() == old(self).missed(),
            action@ == spec_frame_action(old(self).state(), frame@, id.value),
    {
        match self.state {
            SessionState::Open => {},
            _ => {
                assert(final(self).positions() =~= Self::spec_kept(
                    final(self).state(),
                    old(self).positions(),
                ));
                return SessionAction::Nothing;
            },
        }
        match frame {
            ClientFrame::Request(request) => {
                match accept_prompt(request, id) {
                    Ok((message, response)) => SessionAction::PublishThenSend {
                        publish: message.to_json(),
                        reply: response.to_json(),
                    },
                    Err(e) => {
                        let text = e.message();
                        SessionAction::Send(error_envelope(text.as_str()))
                    },
                }
            },
            ClientFrame::Malformed(detail) => {
                let mut text = String::new();
                text.push_str("Invalid request format: ");
                text.push_str(detail.as_str());
                assert(text@ =~= spec_malformed_message(detail@));
                SessionAction::Send(error_envelope(text.as_str()))
            },
            ClientFrame::Ping(payload) => SessionAction::Pong(payload),
            ClientFrame::Unsupported => SessionAction::Nothing,
            ClientFrame::Close | ClientFrame::TransportError | ClientFrame::StreamEnded => {
                self.state = SessionState::Closed;
                self.release();
                SessionAction::Release
            },
        }
    }

    /// One client frame. A request that is accepted gets a fresh correlation
    /// identifier; everything else is as in `on_frame_with`.
    pub fn on_frame(&mut self, frame: ClientFrame) -> (action: SessionAction)
        requires
            old(self).wf(),
        ensures
            final(self).wf(),
            final(self).state() == spec_frame_state(old(self).state(), frame@),
            final(self).positions() == Self::spec_kept(
                final(self).state(),
                old(self).positions(),
            ),
            final(self).missed() == old(self).missed(),
            exists|id: u128|
                is_random_layout(id) && action@ == #[trigger] spec_frame_action(
                    old(self).state(),
                    frame@,
                    id,
                ),
    {
        let mint = match &frame {
            ClientFrame::Request(request) => self.is_open() && !request.prompt.as_str().is_empty(),
            _ => false,
        };
        let id = if mint {
            CorrelationId::fresh()
        } else {
            assert(LAYOUT_RANDOM & LAYOUT_MASK == LAYOUT_RANDOM) by (bit_vector);
            CorrelationId { value: LAYOUT_RANDOM }
        };
        self.on_frame_with(frame, id)
    }

    /// One bus event of kind `kind`, its payload `data` being JSON text: an
    /// open session forwards it to its client.
    pub fn on_event(&self, kind: &str, data: &str) -> (action: SessionAction)
        ensures
            action@ == spec_event_action(self.state(), kind@, data@),
    {
        match self.state {
            SessionState::Open => SessionAction::Send(event_envelope(kind, data)),
            _ => SessionAction::Nothing,
        }
    }

    /// The next event for the handle in `slot`, which was made on `topic`,
    /// forwarded. An open session takes one receive: an event is sent to the
    /// client in its envelope; lost events are counted and nothing is sent
    /// for them; with nothing new nothing happens. A session that is not
    /// open, or has no such slot, does nothing.
    pub fn forward_next<T: WireEvent>(&mut self, slot: usize, topic: &BroadcastTopic<T>) -> (action:
        SessionAction)
        requires
            old(self).wf(),
            topic.wf(),
        ensures
            final(self).wf(),
            final(self).state() == old(self).state(),
            old(self).state() != SessionState::Open || slot >= old(self).positions().len() ==> {
                &&& final(self).positions() == old(self).positions()
                &&& final(self).missed() == old(self).missed()
                &&& action@ == ActionModel::Nothing
            },
            old(self).state() == SessionState::Open && slot < old(self).positions().len() ==> {
                &&& final(self).positions() == old(self).positions().update(
                    slot as int,
                    topic@.advance(old(self).positions()[slot as int]),
                )
                &&& action@ == match topic@.receive(old(self).positions()[slot as int]) {
                    Received::Item(event) => spec_event_action(
                        SessionState::Open,
                        event.spec_kind(),
                        event.spec_data(),
                    ),
                    _ => ActionModel::Nothing,
                }
                &&& final(self).missed() == match topic@.receive(
                    old(self).positions()[slot as int],
                ) {
                    Received::Lagged(lost) => Self::spec_missed_after(
                        old(self).missed(),
                        lost as nat,
                    ),
                    _ => old(self).missed(),
                }
            },
    {
        if !self.is_open() || slot >= self.subscriptions.len() {
            return SessionAction::Nothing;
        }
        let got = topic.recv(&mut self.subscriptions[slot]);
        assert(self.positions() =~= old(self).positions().update(
            slot as int,
            topic@.advance(old(self).positions()[slot as int]),
        ));
        match got {
            Received::Item(event) => {
                let data = event.data_json();
                self.on_event(event.kind(), data.as_str())
            },
            Received::Lagged(lost) => {
                if lost > u64::MAX - self.missed {
                    self.missed = u64::MAX;
                } else {
                    self.missed = self.missed + lost;
                }
                SessionAction::Nothing
            },
            Received::Empty => SessionAction::Nothing,
        }
    }

    /// The last send failed: an open session starts closing and has its
    /// subscriptions released.
    pub fn on_send_failed(&mut self) -> (action: SessionAction)
        requires
            old(self).wf(),
        ensures
            final(self).wf(),
            final(self).positions() == old(self).positions(),
            final(self).missed() == old(self).missed(),
            old(self).state() == SessionState::Open ==> final(self).state()
                == SessionState::Closing && action@ == ActionModel::Release,
            old(self).state() != SessionState::Open ==> final(self).state() == old(self).state()
                && action@ == ActionModel::Nothing,
    {
        match self.state {
            SessionState::Open => {
                self.state = SessionState::Closing;
                SessionAction::Release
            },
            _ => SessionAction::Nothing,
        }
    }

    /// The subscriptions are to go: a closing session drops its handles and
    /// is closed. An open session is left as it is.
    pub fn on_released(&mut self)
        requires
            old(self).wf(),
        ensures
            final(self).wf(),
            final(self).missed() == old(self).missed(),
            old(self).state() == SessionState::Open ==> final(self).state() == SessionState::Open
                && final(self).positions() == old(self).positions(),
            old(self).state() != SessionState::Open ==> final(self).state()
                == SessionState::Closed && final(self).positions() == Seq::<nat>::empty(),
    {
        match self.state {
            SessionState::Open => {},
            _ => {
                self.state = SessionState::Closed;
                self.release();
            },
        }
    }
}

/// A malformed frame costs a session nothing: an open session answers it
/// with exactly one error envelope and stays open for further frames.
pub proof fn lemma_malformed_frame_keeps_session_open(detail: Seq<char>, id: u128)
    ensures
        spec_frame_state(SessionState::Open, FrameModel::Malformed(detail)) == SessionState::Open,
        spec_frame_action(SessionState::Open, FrameModel::Malformed(detail), id)
            == ActionModel::Send(spec_error_envelope(json_quoted(spec_malformed_message(detail)))),
{
}

/// An empty prompt is answered with the error envelope of a bad request and
/// nothing is published; any other prompt is published and acknowledged under
/// the identifier minted for it. Either way the session stays open.
pub proof fn lemma_request_is_rejected_or_acknowledged(prompt: Seq<char>, id: u128)
    ensures
        spec_frame_state(SessionState::Open, FrameModel::Request(prompt)) == SessionState::Open,
        prompt.len() == 0 ==> spec_frame_action(
            SessionState::Open,
            FrameModel::Request(prompt),
            id,
        ) == ActionModel::Send(
            spec_error_envelope(json_quoted(RequestError::EmptyPrompt.spec_message())),
        ),
        prompt.len() > 0 ==> spec_frame_action(SessionState::Open, FrameModel::Request(prompt), id)
            == (ActionModel::PublishThenSend {
            publish: spec_message_json(id, prompt),
            reply: spec_response_json(spec_confirmation(), prompt, hyphenated(id)),
        }),
{
}

/// Relay. An event published on a topic reaches every open session that had
/// caught up with the topic: each of them forwards it as one frame, the
/// event in its envelope, and then has nothing more to forward.
pub proof fn lemma_event_reaches_every_open_session<T: WireEvent>(
    topic: TopicModel<T>,
    event: T,
    positions: Seq<nat>,
)
    requires
        topic.capacity >= 1,
        forall|i: int| 0 <= i < positions.len() ==> positions[i] == topic.history.len(),
    ensures
        forall|i: int|
            0 <= i < positions.len() ==> {
                let after = topic.publish(event);
                &&& after.receive(#[trigger] positions[i]) == Received::Item(event)
                &&& after.receive(after.advance(positions[i])) == Received::<T>::Empty
            },
        spec_event_action(SessionState::Open, event.spec_kind(), event.spec_data())
            == ActionModel::Send(
            spec_event_envelope(json_quoted(event.spec_kind()), event.spec_data()),
        ),
{
}

/// `Closed` is terminal: no frame reopens a closed session or makes it act.
pub proof fn lemma_closed_is_terminal(frame: FrameModel, id: u128)
    ensures
        spec_frame_state(SessionState::Closed, frame) == SessionState::Closed,
        spec_frame_action(SessionState::Closed, frame, id) == ActionModel::Nothing,
{
}

} // verus!
