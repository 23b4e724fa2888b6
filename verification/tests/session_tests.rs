use trip_relay::broadcast::BroadcastTopic;
use trip_relay::events::{AgentEvent, ProgressData, TripCard, WireEvent};
use trip_relay::ident::CorrelationId;
use trip_relay::ingress_api::handlers::TripCardMessage;
use trip_relay::prompt::PromptRequest;
use trip_relay::session::{ClientFrame, Session, SessionAction, SessionState};

fn request(prompt: &str) -> ClientFrame {
    ClientFrame::Request(PromptRequest { prompt: prompt.to_string() })
}

#[test]
fn a_malformed_frame_yields_one_error_and_the_session_stays_open() {
    let mut session = Session::open();
    let action = session.on_frame(ClientFrame::Malformed("expected value at line 1".to_string()));
    assert_eq!(
        action,
        SessionAction::Send(
            "{\"error\":\"Invalid request format: expected value at line 1\"}".to_string()
        )
    );
    assert_eq!(session.current(), SessionState::Open);
    let next = session.on_frame(request("still here"));
    assert!(matches!(next, SessionAction::PublishThenSend { .. }));
    assert!(session.is_open());
}

#[test]
fn an_empty_prompt_is_answered_with_an_error() {
    let mut session = Session::open();
    assert_eq!(
        session.on_frame(request("")),
        SessionAction::Send("{\"error\":\"Received empty prompt\"}".to_string())
    );
    assert!(session.is_open());
}

#[test]
fn a_prompt_is_published_and_acknowledged() {
    let mut session = Session::open();
    let id = CorrelationId { value: 0x0123_4567_89ab_4def_8123_4567_89ab_cdef };
    assert_eq!(
        session.on_frame_with(request("plan a trip to Rome"), id),
        SessionAction::PublishThenSend {
            publish: "{\"request_id\":\"01234567-89ab-4def-8123-456789abcdef\",\"prompt\":\"plan a trip to Rome\"}".to_string(),
            reply: "{\"message\":\"Prompt received successfully\",\"received_prompt\":\"plan a trip to Rome\",\"request_id\":\"01234567-89ab-4def-8123-456789abcdef\"}".to_string(),
        }
    );
    assert!(session.is_open());
}

#[test]
fn repeated_prompts_get_different_identifiers() {
    let mut session = Session::open();
    let first = session.on_frame(request("plan a trip to Rome"));
    let second = session.on_frame(request("plan a trip to Rome"));
    match (first, second) {
        (
            SessionAction::PublishThenSend { publish: first_publish, reply: first_reply },
            SessionAction::PublishThenSend { publish: second_publish, reply: second_reply },
        ) => {
            assert_ne!(first_publish, second_publish);
            assert_ne!(first_reply, second_reply);
            let reply: serde_json::Value = serde_json::from_str(&first_reply).unwrap();
            let message: serde_json::Value = serde_json::from_str(&first_publish).unwrap();
            assert_eq!(reply["request_id"], message["request_id"]);
            assert_eq!(reply["received_prompt"].as_str(), Some("plan a trip to Rome"));
            assert_eq!(reply["request_id"].as_str().unwrap().len(), 36);
        }
        other => panic!("not acknowledged: {:?}", other),
    }
}

#[test]
fn a_ping_is_answered_with_a_pong_of_the_same_payload() {
    let mut session = Session::open();
    assert_eq!(session.on_frame(ClientFrame::Ping(vec![1, 2, 3])), SessionAction::Pong(vec![1, 2, 3]));
    assert_eq!(session.on_frame(ClientFrame::Unsupported), SessionAction::Nothing);
    assert!(session.is_open());
}

#[test]
fn close_error_and_end_close_the_session_and_release_its_subscriptions() {
    for frame in [ClientFrame::Close, ClientFrame::TransportError, ClientFrame::StreamEnded] {
        let topic: BroadcastTopic<TripCard> = BroadcastTopic::new(4);
        let mut session = Session::open();
        assert_eq!(session.subscribe(&topic), Some(0));
        assert_eq!(session.subscription_count(), 1);
        assert_eq!(session.on_frame(frame), SessionAction::Release);
        assert_eq!(session.current(), SessionState::Closed);
        assert_eq!(session.subscription_count(), 0);
        assert_eq!(session.on_frame(request("late")), SessionAction::Nothing);
        assert_eq!(session.on_frame(ClientFrame::Ping(vec![9])), SessionAction::Nothing);
        assert_eq!(session.on_event("progress", "{}"), SessionAction::Nothing);
        assert_eq!(session.subscribe(&topic), None);
        assert_eq!(session.forward_next(0, &topic), SessionAction::Nothing);
        assert_eq!(session.current(), SessionState::Closed);
    }
}

#[test]
fn a_failed_send_closes_the_session_by_way_of_closing() {
    let topic: BroadcastTopic<TripCard> = BroadcastTopic::new(4);
    let mut session = Session::open();
    session.subscribe(&topic);
    assert_eq!(session.on_send_failed(), SessionAction::Release);
    assert_eq!(session.current(), SessionState::Closing);
    assert_eq!(session.on_frame(request("x")), SessionAction::Nothing);
    assert_eq!(session.on_send_failed(), SessionAction::Nothing);
    session.on_released();
    assert_eq!(session.current(), SessionState::Closed);
    assert_eq!(session.subscription_count(), 0);
}

#[test]
fn releasing_leaves_an_open_session_alone() {
    let mut session = Session::open();
    session.on_released();
    assert_eq!(session.current(), SessionState::Open);
}

#[test]
fn two_sessions_both_receive_one_progress_event() {
    let mut progress: BroadcastTopic<AgentEvent> = BroadcastTopic::new(100);
    let mut a = Session::open();
    let mut b = Session::open();
    let slot_a = a.subscribe(&progress).unwrap();
    let slot_b = b.subscribe(&progress).unwrap();
    progress.publish(AgentEvent::Progress(ProgressData {}));
    let frame = SessionAction::Send("{\"type\":\"progress\",\"data\":{}}".to_string());
    assert_eq!(a.forward_next(slot_a, &progress), frame);
    assert_eq!(b.forward_next(slot_b, &progress), frame);
    assert_eq!(a.forward_next(slot_a, &progress), SessionAction::Nothing);
    assert_eq!(b.forward_next(slot_b, &progress), SessionAction::Nothing);
}

#[test]
fn a_session_forwards_each_topic_through_its_own_handle() {
    let mut progress: BroadcastTopic<AgentEvent> = BroadcastTopic::new(2);
    let mut cards: BroadcastTopic<AgentEvent> = BroadcastTopic::new(2);
    let mut session = Session::open();
    assert_eq!(session.subscribe(&progress), Some(0));
    assert_eq!(session.subscribe(&cards), Some(1));
    cards.publish(AgentEvent::TripCard(TripCard {}));
    assert_eq!(session.forward_next(0, &progress), SessionAction::Nothing);
    assert_eq!(
        session.forward_next(1, &cards),
        SessionAction::Send("{\"type\":\"trip_card\",\"data\":{}}".to_string())
    );
    assert_eq!(session.forward_next(7, &cards), SessionAction::Nothing);
    for _ in 0..5 {
        progress.publish(AgentEvent::Progress(ProgressData {}));
    }
    assert_eq!(session.missed_events(), 0);
    assert_eq!(session.forward_next(0, &progress), SessionAction::Nothing);
    assert_eq!(session.missed_events(), 3);
    assert!(matches!(session.forward_next(0, &progress), SessionAction::Send(_)));
    assert!(matches!(session.forward_next(0, &progress), SessionAction::Send(_)));
    assert_eq!(session.forward_next(0, &progress), SessionAction::Nothing);
    assert_eq!(session.missed_events(), 3);
    assert!(session.is_open());
}

#[test]
fn trip_card_envelope() {
    let message = TripCardMessage::new(TripCard {});
    assert_eq!(message.msg_type, "trip_card");
    assert_eq!(message.to_json(), "{\"type\":\"trip_card\",\"data\":{}}");
}

#[test]
fn events_know_their_category() {
    assert_eq!(ProgressData {}.kind(), "progress");
    assert_eq!(TripCard {}.kind(), "trip_card");
    assert_eq!(AgentEvent::Progress(ProgressData {}).kind(), "progress");
    assert_eq!(AgentEvent::TripCard(TripCard {}).kind(), "trip_card");
    assert_eq!(AgentEvent::TripCard(TripCard {}).data_json(), "{}");
}
