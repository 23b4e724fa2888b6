//! Client requests: what a prompt must satisfy, the message it becomes on
//! the bus, and the acknowledgment that goes back to the client.

use vstd::prelude::*;
use crate::ident::{hyphenated, is_random_layout, CorrelationId};
use crate::json::{json_quoted, object2, object3, quote, spec_object2, spec_object3};

verus! {

/// A client's request: `{"prompt": "<string>"}`.
#[derive(Debug, Clone, PartialEq, Eq)]
pub struct PromptRequest {
    /// What the client asks for.
    pub prompt: String,
}

/// The acknowledgment of an accepted request.
#[derive(Debug, Clone, PartialEq, Eq)]
pub struct PromptResponse {
    /// A fixed line of confirmation.
    pub message: String,
    /// The prompt as it was received.
    pub received_prompt: String,
    /// The correlation identifier, as text.
    pub request_id: String,
}

/// What is published on the bus for an accepted request.
#[derive(Debug, Clone, PartialEq, Eq)]
pub struct PromptMessage {
    /// The identifier minted for the request.
    pub request_id: CorrelationId,
    /// The prompt.
    pub prompt: String,
}

/// Why a request is turned down.
#[derive(Debug, Clone, Copy, PartialEq, Eq, Structural)]
pub enum RequestError {
    /// The prompt has no text.
    EmptyPrompt,
}

impl RequestError {
    /// The error as the client is told it.
    pub open spec fn spec_message(&self) -> Seq<char> {
        "Received empty prompt"@
    }

    /// The error as the client is told it.
    pub fn message(&self) -> (text: String)
        ensures
            text@ == self.spec_message(),
    {
        "Received empty prompt".to_owned()
    }
}

/// The confirmation that every acknowledgment carries.
pub open spec fn spec_confirmation() -> Seq<char> {
    "Prompt received successfully"@
}

/// The acknowledgment on the wire:
/// `{"message":..,"received_prompt":..,"request_id":..}`, each value a
/// quoted string.
pub open spec fn spec_response_json(
    message: Seq<char>,
    received_prompt: Seq<char>,
    request_id: Seq<char>,
) -> Seq<char> {
    spec_object3(
        "message"@,
        json_quoted(message),
        "received_prompt"@,
        json_quoted(received_prompt),
        "request_id"@,
        json_quoted(request_id),
    )
}

/// The bus message on the wire: `{"request_id":..,"prompt":..}`, the
/// identifier as hyphenated text.
pub open spec fn spec_message_json(request_id: u128, prompt: Seq<char>) -> Seq<char> {
    spec_object2(
        "request_id"@,
        json_quoted(hyphenated(request_id)),
        "prompt"@,
        json_quoted(prompt),
    )
}

impl PromptResponse {
    /// The acknowledgment as JSON text.
    pub fn to_json(&self) -> (text: String)
        ensures
            text@ == spec_response_json(self.message@, self.received_prompt@, self.request_id@),
    {
        let message = quote(self.message.as_str());
        let received = quote(self.received_prompt.as_str());
        let id = quote(self.request_id.as_str());
        object3(
            "message",
            message.as_str(),
            "received_prompt",
            received.as_str(),
            "request_id",
            id.as_str(),
        )
    }
}

impl PromptMessage {
    /// The bus message as JSON text.
    pub fn to_json(&self) -> (text: String)
        ensures
            text@ == spec_message_json(self.request_id.value, self.prompt@),
    {
        let id_text = self.request_id.text();
        let id = quote(id_text.as_str());
        let prompt = quote(self.prompt.as_str());
        object2("request_id", id.as_str(), "prompt", prompt.as_str())
    }
}

/// Validates a request and, under the identifier `request_id`, turns it into
/// the message to publish and the acknowledgment to send. An empty prompt is
/// a bad request; every other prompt is accepted as it stands.
pub fn accept_prompt(payload: PromptRequest, request_id: CorrelationId) -> (accepted: Result<
    (PromptMessage, PromptResponse),
    RequestError,
>)
    ensures
        accepted is Err <==> payload.prompt@.len() == 0,
        accepted matches Err(e) ==> e == RequestError::EmptyPrompt,
        accepted matches Ok((message, response)) ==> {
            &&& message.request_id == request_id
            &&& message.prompt@ == payload.prompt@
            &&& response.message@ == spec_confirmation()
            &&& response.received_prompt@ == payload.prompt@
            &&& response.request_id@ == hyphenated(request_id.value)
        },
{
    if payload.prompt.as_str().is_empty() {
        return Err(RequestError::EmptyPrompt);
    }
    let message = PromptMessage { request_id, prompt: payload.prompt.clone() };
    let response = PromptResponse {
        message: "Prompt received successfully".to_owned(),
        received_prompt: payload.prompt,
        request_id: request_id.text(),
    };
    Ok((message, response))
}

/// Handles one parsed request: rejects an empty prompt, and otherwise mints a
/// fresh correlation identifier and hands back the message to publish with
/// the acknowledgment that carries the identifier. The acknowledgment does
/// not wait for the publish, nor depend on how it ends.
pub fn handle_prompt_internal(payload: PromptRequest) -> (accepted: Result<
    (PromptMessage, PromptResponse),
    RequestError,
>)
    ensures
        accepted is Err <==> payload.prompt@.len() == 0,
        accepted matches Err(e) ==> e == RequestError::EmptyPrompt,
        accepted matches Ok((message, response)) ==> {
            &&& is_random_layout(message.request_id.value)
            &&& message.prompt@ == payload.prompt@
            &&& response.message@ == spec_confirmation()
            &&& response.received_prompt@ == payload.prompt@
            &&& response.request_id@ == hyphenated(message.request_id.value)
        },
{
    if payload.prompt.as_str().is_empty() {
        return Err(RequestError::EmptyPrompt);
    }
    let request_id = CorrelationId::fresh();
    accept_prompt(payload, request_id)
}

/// The body to publish for a request: the bus message under `request_id`
/// with `prompt`, as JSON text.
pub fn publish_prompt(request_id: CorrelationId, prompt: String) -> (body: String)
    ensures
        body@ == spec_message_json(request_id.value, prompt@),
{
    let message = PromptMessage { request_id, prompt };
    message.to_json()
}

} // verus!
