use trip_relay::agent_orchestrator::handlers::health;
use trip_relay::agent_orchestrator::llm::{
    developer_prompt, first_output_text, input_array, input_messages, request_body,
    status_is_success, system_prompt, trip_request_schema, ContentItem, InputMessage, LlmError,
    OutputItem, ResponsesResponse,
};
use trip_relay::agent_orchestrator::publish::{publish_progress, ProgressData, ProgressStatus};
use trip_relay::agent_orchestrator::subscribe::{start_subscriber, take_receipts, PromptCallback};
use trip_relay::broadcast::{BroadcastTopic, Received};
use trip_relay::consumer::Settlement;
use trip_relay::endpoint::subscribe::subscribe_to_trip_cards;
use trip_relay::events::{AgentEvent, ProgressData as Progress, TripCard};
use trip_relay::ident::CorrelationId;
use trip_relay::ingress_api::subscribe::subscribe_to_agent_responses;
use trip_relay::prompt::PromptMessage;
use trip_relay::relay::Decoder;
use trip_relay::routing::Dispatch;

/// Reads `p` as a progress event and `c` as a trip card.
struct Letters;

impl Decoder<AgentEvent> for Letters {
    fn decode(&self, body: &[u8]) -> Option<AgentEvent> {
        match body {
            b"p" => Some(AgentEvent::Progress(Progress {})),
            b"c" => Some(AgentEvent::TripCard(TripCard {})),
            _ => None,
        }
    }
}

impl Decoder<TripCard> for Letters {
    fn decode(&self, body: &[u8]) -> Option<TripCard> {
        if body == b"c" {
            Some(TripCard {})
        } else {
            None
        }
    }
}

/// Reads a body as a prompt under the identifier of its length.
struct Prompts;

impl Decoder<PromptMessage> for Prompts {
    fn decode(&self, body: &[u8]) -> Option<PromptMessage> {
        let prompt = String::from_utf8(body.to_vec()).ok()?;
        Some(PromptMessage { request_id: CorrelationId { value: body.len() as u128 }, prompt })
    }
}

#[test]
fn agent_responses_reach_the_topic_of_their_key() {
    let progress = BroadcastTopic::new(100);
    let cards = BroadcastTopic::new(100);
    let mut progress_sub = progress.subscribe();
    let mut cards_sub = cards.subscribe();
    let mut consumer =
        subscribe_to_agent_responses("progress", "tripcard", progress, cards, Letters, Letters);
    assert_eq!(consumer.routes().len(), 2);
    assert_eq!(consumer.on_delivery("progress", b"p"), Settlement::Acknowledge(Dispatch::Handled));
    assert_eq!(consumer.on_delivery("tripcard", b"c"), Settlement::Acknowledge(Dispatch::Handled));
    assert_eq!(consumer.on_delivery("tripcard", b"?"), Settlement::Acknowledge(Dispatch::Failed));
    assert_eq!(consumer.on_delivery("prompt", b"p"), Settlement::Acknowledge(Dispatch::Unmatched));
    let progress = consumer.routes().lookup("progress").unwrap().events();
    let cards = consumer.routes().lookup("tripcard").unwrap().events();
    assert_eq!(
        progress.recv(&mut progress_sub),
        Received::Item(&AgentEvent::Progress(Progress {}))
    );
    assert_eq!(progress.recv(&mut progress_sub), Received::Empty);
    assert_eq!(cards.recv(&mut cards_sub), Received::Item(&AgentEvent::TripCard(TripCard {})));
    assert_eq!(cards.recv(&mut cards_sub), Received::Empty);
}

#[test]
fn one_key_for_both_categories_binds_the_trip_card_handler() {
    let progress = BroadcastTopic::new(3);
    let cards = BroadcastTopic::new(5);
    let consumer = subscribe_to_agent_responses("same", "same", progress, cards, Letters, Letters);
    assert_eq!(consumer.routes().len(), 1);
    assert_eq!(consumer.routes().lookup("same").unwrap().events().capacity(), 5);
}

#[test]
fn trip_cards_reach_their_topic() {
    let topic = BroadcastTopic::new(100);
    let mut sub = topic.subscribe();
    let mut consumer = subscribe_to_trip_cards("response", topic, Letters);
    assert_eq!(consumer.routes().len(), 1);
    assert_eq!(consumer.on_delivery("response", b"c"), Settlement::Acknowledge(Dispatch::Handled));
    assert_eq!(consumer.on_delivery("response", b"x"), Settlement::Acknowledge(Dispatch::Failed));
    let topic = consumer.routes().lookup("response").unwrap().events();
    assert_eq!(topic.recv(&mut sub), Received::Item(&TripCard {}));
    assert_eq!(topic.recv(&mut sub), Received::Empty);
}

#[test]
fn a_prompt_off_the_bus_queues_its_receipt() {
    let mut consumer = start_subscriber("prompt", Prompts);
    assert_eq!(consumer.on_delivery("prompt", b"Rome"), Settlement::Acknowledge(Dispatch::Handled));
    assert_eq!(
        consumer.on_delivery("prompt", &[0xff, 0xfe]),
        Settlement::Acknowledge(Dispatch::Failed)
    );
    assert_eq!(consumer.on_delivery("other", b"Rome"), Settlement::Acknowledge(Dispatch::Unmatched));
    assert_eq!(take_receipts(&mut consumer, "other"), Vec::<ProgressData>::new());
    assert_eq!(
        take_receipts(&mut consumer, "prompt"),
        vec![ProgressData {
            status: ProgressStatus::SingleEvent,
            message: "Received prompt with request_id: 00000000-0000-0000-0000-000000000004"
                .to_string(),
        }]
    );
    assert_eq!(take_receipts(&mut consumer, "prompt"), Vec::<ProgressData>::new());
    assert_eq!(consumer.on_delivery("prompt", b"Paris"), Settlement::Acknowledge(Dispatch::Handled));
    assert_eq!(take_receipts(&mut consumer, "prompt").len(), 1);
    let mut callback = PromptCallback::new(Prompts);
    assert!(callback.on_message(b"Rome"));
    assert!(!callback.on_decoded(None));
    assert!(callback.on_decoded(Some(PromptMessage {
        request_id: CorrelationId { value: 0x0123_4567_89ab_4def_8123_4567_89ab_cdef },
        prompt: "x".to_string(),
    })));
    assert_eq!(
        callback.take_outbox(),
        vec![
            ProgressData {
                status: ProgressStatus::SingleEvent,
                message: "Received prompt with request_id: 00000000-0000-0000-0000-000000000004"
                    .to_string(),
            },
            ProgressData {
                status: ProgressStatus::SingleEvent,
                message: "Received prompt with request_id: 01234567-89ab-4def-8123-456789abcdef"
                    .to_string(),
            },
        ]
    );
    assert_eq!(callback.take_outbox(), Vec::<ProgressData>::new());
}

#[test]
fn progress_on_the_wire() {
    let progress = ProgressData { status: ProgressStatus::SingleEvent, message: "a \"b\"".to_string() };
    assert_eq!(publish_progress(&progress), "{\"status\":\"SingleEvent\",\"message\":\"a \\\"b\\\"\"}");
    assert_eq!(ProgressStatus::InProgress.name(), "InProgress");
    assert_eq!(ProgressStatus::Finished.name(), "Finished");
}

#[test]
fn health_is_ok() {
    let (status, answer) = health();
    assert_eq!(status, 200);
    assert_eq!(answer.status, "ok");
    assert_eq!(answer.to_json(), "{\"status\":\"ok\"}");
}

#[test]
fn conversation_skips_an_empty_developer_message() {
    assert_eq!(
        input_messages(developer_prompt(), "to Rome"),
        vec![InputMessage { role: "user", content: "to Rome".to_string() }]
    );
    assert_eq!(
        input_messages("be brief", "to Rome"),
        vec![
            InputMessage { role: "developer", content: "be brief".to_string() },
            InputMessage { role: "user", content: "to Rome".to_string() },
        ]
    );
}

#[test]
fn request_on_the_wire() {
    let schema = "{\"type\":\"object\",\"properties\":{},\"required\":[],\"additionalProperties\":false}";
    assert_eq!(trip_request_schema(), schema);
    assert_eq!(system_prompt(), "You are a helpful travel planning assistant.");
    assert_eq!(input_array(&Vec::new()), "[]");
    let messages = input_messages("be \"brief\"", "to Rome");
    assert_eq!(
        input_array(&messages),
        "[{\"role\":\"developer\",\"content\":\"be \\\"brief\\\"\"},{\"role\":\"user\",\"content\":\"to Rome\"}]"
    );
    let body = request_body("gpt", &input_messages("", "to Rome"));
    assert_eq!(
        body,
        format!(
            "{{\"model\":\"gpt\",\"instructions\":\"You are a helpful travel planning assistant.\",\"input\":[{{\"role\":\"user\",\"content\":\"to Rome\"}}],\"text\":{{\"format\":{{\"type\":\"json_schema\",\"name\":\"trip_request\",\"schema\":{},\"strict\":true}}}}}}",
            schema
        )
    );
    let parsed: serde_json::Value = serde_json::from_str(&body).unwrap();
    assert_eq!(parsed["text"]["format"]["schema"]["additionalProperties"].as_bool(), Some(false));
}

#[test]
fn success_is_the_two_hundreds() {
    assert!(!status_is_success(199));
    assert!(status_is_success(200));
    assert!(status_is_success(204));
    assert!(status_is_success(299));
    assert!(!status_is_success(300));
    assert!(!status_is_success(404));
    assert!(!status_is_success(0));
}

#[test]
fn the_first_text_of_the_first_output_is_read() {
    let item = |texts: &[&str]| OutputItem {
        content: texts.iter().map(|t| ContentItem { text: t.to_string() }).collect(),
    };
    let full = ResponsesResponse { output: vec![item(&["{}", "x"]), item(&["y"])] };
    assert_eq!(first_output_text(&full), Ok("{}"));
    let none = ResponsesResponse { output: vec![] };
    assert_eq!(first_output_text(&none), Err(LlmError::NoOutput));
    let hollow = ResponsesResponse { output: vec![item(&[]), item(&["y"])] };
    assert_eq!(first_output_text(&hollow), Err(LlmError::NoOutput));
}

#[test]
fn errors_in_words() {
    assert_eq!(LlmError::NoOutput.message(), "No output content in OpenAI response");
    let status = LlmError::Status { status: "429 Too Many Requests".to_string(), body: "slow down".to_string() };
    assert_eq!(status.message(), "OpenAI API returned status 429 Too Many Requests: slow down");
}
