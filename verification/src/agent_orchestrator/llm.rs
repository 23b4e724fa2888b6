//! The exchange with the language-model service: what is asked, and what is
//! read from the answer. Sending and receiving are the caller's.

use vstd::prelude::*;
use crate::json::{json_quoted, object2, push_member, quote, spec_member, spec_object2};

verus! {

/// Structured output of the language model. It has no fields yet.
#[derive(Debug, Clone, Copy, PartialEq, Eq, Structural)]
pub struct TripRequest {}

/// One message of the conversation that is sent.
#[derive(Debug, Clone, PartialEq, Eq)]
pub struct InputMessage {
    /// Who speaks: `developer` or `user`.
    pub role: &'static str,
    /// What is said.
    pub content: String,
}

impl View for InputMessage {
    type V = (Seq<char>, Seq<char>);

    open spec fn view(&self) -> (Seq<char>, Seq<char>) {
        (self.role@, self.content@)
    }
}

/// One piece of content in an output item of the answer.
#[derive(Debug, Clone, PartialEq, Eq)]
pub struct ContentItem {
    pub text: String,
}

/// One output item of the answer.
#[derive(Debug, Clone, PartialEq, Eq)]
pub struct OutputItem {
    pub content: Vec<ContentItem>,
}

/// The answer of the service, as far as it is read.
#[derive(Debug, Clone, PartialEq, Eq)]
pub struct ResponsesResponse {
    pub output: Vec<OutputItem>,
}

/// The instructions that go with every request.
pub fn system_prompt() -> (text: &'static str)
    ensures
        text@ == "You are a helpful travel planning assistant."@,
{
    "You are a helpful travel planning assistant."
}

/// The developer's message that precedes the user's. It is empty for now, and
/// an empty one is not sent.
pub fn developer_prompt() -> (text: &'static str)
    ensures
        text@ == ""@,
{
    ""
}

/// The JSON Schema of the structured output: an object without properties.
pub fn trip_request_schema() -> (schema: String)
    ensures
        schema@
            == "{\"type\":\"object\",\"properties\":{},\"required\":[],\"additionalProperties\":false}"@,
{
    "{\"type\":\"object\",\"properties\":{},\"required\":[],\"additionalProperties\":false}".to_owned()
}

/// The conversation for a user's prompt: the developer's message first,
/// unless it is empty, then the user's.
pub open spec fn spec_input_messages(developer: Seq<char>, user: Seq<char>) -> Seq<
    (Seq<char>, Seq<char>),
> {
    if developer.len() == 0 {
        seq![("user"@, user)]
    } else {
        seq![("developer"@, developer), ("user"@, user)]
    }
}

/// The views of a run of messages.
pub open spec fn message_views(messages: Seq<InputMessage>) -> Seq<(Seq<char>, Seq<char>)> {
    Seq::new(messages.len(), |i: int| messages[i]@)
}

/// Builds the conversation for a user's prompt.
pub fn input_messages(developer: &str, user: &str) -> (input: Vec<InputMessage>)
    ensures
        message_views(input@) == spec_input_messages(developer@, user@),
{
    let mut input: Vec<InputMessage> = Vec::new();
    if !developer.is_empty() {
        input.push(InputMessage { role: "developer", content: developer.to_owned() });
    }
    input.push(InputMessage { role: "user", content: user.to_owned() });
    assert(message_views(input@) =~= spec_input_messages(developer@, user@));
    input
}

/// One message on the wire: `{"role":..,"content":..}`.
pub open spec fn spec_message_item(message: (Seq<char>, Seq<char>)) -> Seq<char> {
    spec_object2("role"@, json_quoted(message.0), "content"@, json_quoted(message.1))
}

/// The messages on the wire, separated by commas.
pub open spec fn spec_message_items(messages: Seq<(Seq<char>, Seq<char>)>) -> Seq<char>
    decreases messages.len(),
{
    if messages.len() == 0 {
        Seq::empty()
    } else {
        spec_message_items(messages.drop_last()) + (if messages.len() == 1 {
            Seq::<char>::empty()
        } else {
            ","@
        }) + spec_message_item(messages.last())
    }
}

/// How the structured output is asked for, around the schema.
pub open spec fn spec_text_config(schema: Seq<char>) -> Seq<char> {
    "{\"format\":{\"type\":\"json_schema\",\"name\":\"trip_request\",\"schema\":"@ + schema
        + ",\"strict\":true}}"@
}

/// The request on the wire: model, instructions, the conversation, and the
/// format of the answer.
pub open spec fn spec_request_body(
    model: Seq<char>,
    instructions: Seq<char>,
    messages: Seq<(Seq<char>, Seq<char>)>,
    schema: Seq<char>,
) -> Seq<char> {
    "{"@ + spec_member(true, "model"@, json_quoted(model)) + spec_member(
        false,
        "instructions"@,
        json_quoted(instructions),
    ) + spec_member(false, "input"@, "["@ + spec_message_items(messages) + "]"@) + spec_member(
        false,
        "text"@,
        spec_text_config(schema),
    ) + "}"@
}

/// The conversation as a JSON array.
pub fn input_array(messages: &Vec<InputMessage>) -> (text: String)
    ensures
        text@ == "["@ + spec_message_items(message_views(messages@)) + "]"@,
{
    let mut text = String::new();
    text.push_str("[");
    let mut i: usize = 0;
    assert(message_views(messages@).take(0) =~= Seq::<(Seq<char>, Seq<char>)>::empty());
    while i < messages.len()
        invariant
            i <= messages.len(),
            text@ == "["@ + spec_message_items(message_views(messages@).take(i as int)),
        decreases messages.len() - i,
    {
        let ghost before = text@;
        if i > 0 {
            text.push_str(",");
        }
        let role = quote(messages[i].role);
        let content = quote(messages[i].content.as_str());
        let item = object2("role", role.as_str(), "content", content.as_str());
        text.push_str(item.as_str());
        proof {
            let done = message_views(messages@).take(i + 1);
            assert(done.drop_last() =~= message_views(messages@).take(i as int));
            assert(done.last() == messages@[i as int]@);
            assert(text@ =~= "["@ + spec_message_items(done));
        }
        i = i + 1;
    }
    assert(message_views(messages@).take(i as int) =~= message_views(messages@));
    text.push_str("]");
    text
}

/// The body of the request for `model` with the conversation `messages`.
pub fn request_body(model: &str, messages: &Vec<InputMessage>) -> (body: String)
    ensures
        body@ == spec_request_body(
            model@,
            "You are a helpful travel planning assistant."@,
            message_views(messages@),
            "{\"type\":\"object\",\"properties\":{},\"required\":[],\"additionalProperties\":false}"@,
        ),
{
    let model_text = quote(model);
    let instructions = quote(system_prompt());
    let input = input_array(messages);
    let schema = trip_request_schema();
    let mut config = String::new();
    config.push_str("{\"format\":{\"type\":\"json_schema\",\"name\":\"trip_request\",\"schema\":");
    config.push_str(schema.as_str());
    config.push_str(",\"strict\":true}}");
    assert(config@ =~= spec_text_config(schema@));
    let mut body = String::new();
    body.push_str("{");
    push_member(&mut body, true, "model", model_text.as_str());
    push_member(&mut body, false, "instructions", instructions.as_str());
    push_member(&mut body, false, "input", input.as_str());
    push_member(&mut body, false, "text", config.as_str());
    body.push_str("}");
    assert(body@ =~= spec_request_body(
        model@,
        "You are a helpful travel planning assistant."@,
        message_views(messages@),
        schema@,
    ));
    body
}

/// Whether an HTTP status stands for success: the codes from 200 to 299.
pub fn status_is_success(status: u16) -> (success: bool)
    ensures
        success == (200 <= status < 300),
{
    200 <= status && status < 300
}

/// Why no trip request came out of an exchange.
#[derive(Debug, Clone, PartialEq, Eq)]
pub enum LlmError {
    /// The service answered with a status other than success.
    Status { status: String, body: String },
    /// The answer holds no output content.
    NoOutput,
}

/// The words of an error.
pub open spec fn spec_error_text(status: Seq<char>, body: Seq<char>) -> Seq<char> {
    "OpenAI API returned status "@ + status + ": "@ + body
}

impl LlmError {
    /// The error in words.
    pub fn message(&self) -> (text: String)
        ensures
            self matches LlmError::Status { status, body } ==> text@ == spec_error_text(
                status@,
                body@,
            ),
            self is NoOutput ==> text@ == "No output content in OpenAI response"@,
    {
        match self {
            LlmError::Status { status, body } => {
                let mut text = String::new();
                text.push_str("OpenAI API returned status ");
                text.push_str(status.as_str());
                text.push_str(": ");
                text.push_str(body.as_str());
                assert(text@ =~= spec_error_text(status@, body@));
                text
            },
            LlmError::NoOutput => "No output content in OpenAI response".to_owned(),
        }
    }
}

/// The text of the first piece of content of the first output item: the
/// structured output, still as text.
pub fn first_output_text(response: &ResponsesResponse) -> (found: Result<&str, LlmError>)
    ensures
        found is Ok <==> response.output@.len() > 0 && response.output@[0].content@.len() > 0,
        found matches Ok(text) ==> text@ == response.output@[0].content@[0].text@,
        found matches Err(e) ==> e is NoOutput,
{
    if response.output.len() == 0 {
        return Err(LlmError::NoOutput);
    }
    let first = &response.output[0];
    if first.content.len() == 0 {
        return Err(LlmError::NoOutput);
    }
    Ok(first.content[0].text.as_str())
}

} // verus!
