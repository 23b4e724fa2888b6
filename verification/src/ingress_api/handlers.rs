//! What the service does for a connected client.

use vstd::prelude::*;
use crate::events::{TripCard, WireEvent};
use crate::json::{event_envelope, json_quoted, spec_event_envelope};

pub use crate::prompt::{handle_prompt_internal, PromptRequest, PromptResponse};
pub use crate::session::{ClientFrame, Session, SessionAction, SessionState};

verus! {

/// A trip card in the envelope in which a client receives it.
#[derive(Debug, Clone, PartialEq, Eq)]
pub struct TripCardMessage {
    /// The name of the category, on the wire under `"type"`.
    pub msg_type: String,
    /// The card.
    pub data: TripCard,
}

impl TripCardMessage {
    /// The envelope around `data`, under the category of trip cards.
    pub fn new(data: TripCard) -> (message: TripCardMessage)
        ensures
            message.msg_type@ == data.spec_kind(),
            message.data == data,
    {
        TripCardMessage { msg_type: data.kind().to_owned(), data }
    }

    /// The envelope as JSON text: `{"type":..,"data":..}`.
    pub fn to_json(&self) -> (text: String)
        ensures
            text@ == spec_event_envelope(json_quoted(self.msg_type@), self.data.spec_data()),
    {
        let data = self.data.data_json();
        event_envelope(self.msg_type.as_str(), data.as_str())
    }
}

} // verus!
