//! The events that come off the bus for the clients, by category.

use vstd::prelude::*;

verus! {

/// An event that can be forwarded to a client: it knows the name of its
/// category and its payload as JSON text.
pub trait WireEvent {
    /// The name of the event's category.
    spec fn spec_kind(&self) -> Seq<char>;

    /// The payload as JSON text.
    spec fn spec_data(&self) -> Seq<char>;

    /// The name of the event's category, as it stands under `"type"`.
    fn kind(&self) -> (name: &'static str)
        ensures
            name@ == self.spec_kind(),
    ;

    /// The payload as JSON text, as it stands under `"data"`.
    fn data_json(&self) -> (data: String)
        ensures
            data@ == self.spec_data(),
    ;
}

/// Progress of a request. It has no fields yet: on the wire it is `{}`.
#[derive(Debug, Clone, Copy, PartialEq, Eq, Structural)]
pub struct ProgressData {}

/// Result of a request. It has no fields yet: on the wire it is `{}`.
#[derive(Debug, Clone, Copy, PartialEq, Eq, Structural)]
pub struct TripCard {}

/// The closed set of events that reach the clients.
#[derive(Debug, Clone, Copy, PartialEq, Eq, Structural)]
pub enum AgentEvent {
    /// An event of the category `progress`.
    Progress(ProgressData),
    /// An event of the category `trip_card`.
    TripCard(TripCard),
}

impl WireEvent for ProgressData {
    open spec fn spec_kind(&self) -> Seq<char> {
        "progress"@
    }

    open spec fn spec_data(&self) -> Seq<char> {
        "{}"@
    }

    fn kind(&self) -> (name: &'static str) {
        "progress"
    }

    fn data_json(&self) -> (data: String) {
        "{}".to_owned()
    }
}

impl WireEvent for TripCard {
    open spec fn spec_kind(&self) -> Seq<char> {
        "trip_card"@
    }

    open spec fn spec_data(&self) -> Seq<char> {
        "{}"@
    }

    fn kind(&self) -> (name: &'static str) {
        "trip_card"
    }

    fn data_json(&self) -> (data: String) {
        "{}".to_owned()
    }
}

impl WireEvent for AgentEvent {
    open spec fn spec_kind(&self) -> Seq<char> {
        match self {
            AgentEvent::Progress(progress) => progress.spec_kind(),
            AgentEvent::TripCard(card) => card.spec_kind(),
        }
    }

    open spec fn spec_data(&self) -> Seq<char> {
        match self {
            AgentEvent::Progress(progress) => progress.spec_data(),
            AgentEvent::TripCard(card) => card.spec_data(),
        }
    }

    fn kind(&self) -> (name: &'static str) {
        match self {
            AgentEvent::Progress(progress) => progress.kind(),
            AgentEvent::TripCard(card) => card.kind(),
        }
    }

    fn data_json(&self) -> (data: String) {
        match self {
            AgentEvent::Progress(progress) => progress.data_json(),
            AgentEvent::TripCard(card) => card.data_json(),
        }
    }
}

} // verus!
