use gemini_relay::dispatch::{AttachmentInfo, InboundMessage, PRIVILEGED_USER};
use gemini_relay::exchange::{status_line, Emission, TransportError, FILTERED_REPLY};
use gemini_relay::model::Contents;
use gemini_relay::relay::{Action, Event, Phase, Relay};

const BOT: u64 = 42;

fn said(author_id: u64, text: &str) -> Event {
    Event::Message(InboundMessage {
        author_id,
        text: text.to_string(),
        mentions: vec![],
        attachments: vec![],
    })
}

fn with_attachment(text: &str, content_type: Option<&str>) -> Event {
    Event::Message(InboundMessage {
        author_id: 7,
        text: text.to_string(),
        mentions: vec![BOT],
        attachments: vec![AttachmentInfo { content_type: content_type.map(|t| t.to_string()) }],
    })
}

fn reply(text: &str, status: Option<&str>) -> Action {
    Action::Reply(Emission {
        chunks: vec![text.to_string()],
        status: status.map(|s| s.to_string()),
    })
}

#[test]
fn new_relay_is_idle_and_empty() {
    let relay = Relay::new(BOT, "secret".to_string());
    assert_eq!(relay.bot_id, BOT);
    assert_eq!(relay.api_key, "secret");
    assert_eq!(relay.phase, Phase::Idle);
    assert!(relay.conversation.contents.is_empty());
    assert_eq!(relay.conversation.safety_settings.len(), 4);
}

#[test]
fn text_exchange_through_the_relay() {
    let mut relay = Relay::new(BOT, "secret".to_string());
    let action = relay.step(said(7, "? hello"));
    match action {
        Action::Send { body } => {
            assert!(body.starts_with("{\"contents\":[{\"role\":\"user\",\"parts\":[{\"text\":\"hello\"}]}],"))
        }
        other => panic!("a request is sent, not {:?}", other),
    }
    assert_eq!(relay.phase, Phase::AwaitingRemote);
    let action = relay.step(Event::Answered(
        "{\"candidates\":[{\"content\":{\"parts\":[{\"text\":\"hi\"}]},\"finishReason\":\"STOP\"}],\"usageMetadata\":{\"totalTokenCount\":5}}"
            .to_string(),
    ));
    assert_eq!(action, reply("hi", Some("Tokens: 5")));
    assert_eq!(relay.phase, Phase::Idle);
    assert_eq!(
        relay.conversation.contents,
        vec![Contents::user("hello".to_string()), Contents::model("hi".to_string())]
    );
}

#[test]
fn safety_trigger_through_the_relay() {
    let mut relay = Relay::new(BOT, "secret".to_string());
    relay.step(said(7, "? hello"));
    let action =
        relay.step(Event::Answered("{\"candidates\":[{\"finishReason\":\"SAFETY\"}]}".to_string()));
    assert_eq!(action, reply(FILTERED_REPLY, None));
    assert_eq!(relay.phase, Phase::Idle);
    assert!(relay.conversation.contents.is_empty());
}

#[test]
fn reset_through_the_relay() {
    let mut relay = Relay::new(BOT, "secret".to_string());
    for i in 0..5 {
        relay.conversation.add_message(Contents::user(format!("turn {}", i)));
    }
    let action = relay.step(said(PRIVILEGED_USER, "!resetgemini"));
    assert_eq!(
        action,
        Action::Announce(Emission {
            chunks: vec!["Conversation has been reset!".to_string()],
            status: Some("Tokens: 0".to_string()),
        })
    );
    assert!(relay.conversation.contents.is_empty());
    assert_eq!(relay.phase, Phase::Idle);
    assert_eq!(status_line(0), "Tokens: 0");
}

#[test]
fn transport_failure_through_the_relay() {
    let mut relay = Relay::new(BOT, "secret".to_string());
    relay.conversation.add_message(Contents::user("old".to_string()));
    let before = relay.clone();
    assert!(matches!(relay.step(said(7, "? hello")), Action::Send { .. }));
    assert_eq!(relay.conversation.contents.len(), 2);
    let action = relay.step(Event::TransportFailed(TransportError::Send));
    assert_eq!(action, reply("Error sending POST request to gemini", None));
    assert_eq!(relay, before);
}

#[test]
fn unaddressed_message_asks_for_nothing() {
    let mut relay = Relay::new(BOT, "secret".to_string());
    let before = relay.clone();
    assert_eq!(relay.step(said(7, "hello")), Action::Nothing);
    assert_eq!(relay.step(said(BOT, "? hello")), Action::Nothing);
    assert_eq!(relay, before);
}

#[test]
fn events_that_do_not_fit_the_phase_change_nothing() {
    let mut relay = Relay::new(BOT, "secret".to_string());
    let before = relay.clone();
    assert_eq!(relay.step(Event::Answered("{}".to_string())), Action::Nothing);
    assert_eq!(relay.step(Event::TransportFailed(TransportError::Read)), Action::Nothing);
    assert_eq!(relay.step(Event::Fetched(vec![1, 2, 3])), Action::Nothing);
    assert_eq!(relay.step(Event::FetchFailed), Action::Nothing);
    assert_eq!(relay, before);

    relay.step(said(7, "? hello"));
    let busy = relay.clone();
    assert_eq!(relay.step(said(8, "? me too")), Action::Nothing);
    assert_eq!(relay.step(Event::FetchFailed), Action::Nothing);
    assert_eq!(relay, busy);
}

#[test]
fn image_exchange_through_the_relay() {
    let mut relay = Relay::new(BOT, "secret".to_string());
    relay.conversation.add_message(Contents::user("earlier".to_string()));
    let action = relay.step(with_attachment("<@42> what is this", Some("image/png")));
    assert_eq!(action, Action::Fetch);
    assert_eq!(
        relay.phase,
        Phase::Fetching { text: "what is this".to_string(), content_type: "image/png".to_string() }
    );
    assert_eq!(relay.conversation.contents.len(), 1);
    match relay.step(Event::Fetched(b"hello".to_vec())) {
        Action::Send { body } => {
            assert!(body.contains("{\"inlineData\":{\"data\":\"aGVsbG8=\",\"mimeType\":\"image/png\"}}"));
            assert!(body.contains("{\"text\":\"what is this\"}"));
            assert!(!body.contains("earlier"));
        }
        other => panic!("a request is sent, not {:?}", other),
    }
    assert_eq!(relay.phase, Phase::AwaitingRemote);
    assert_eq!(relay.conversation.contents.len(), 2);
    assert_eq!(relay.conversation.contents[1], Contents::user("what is this".to_string()));
}

#[test]
fn failed_fetch_ends_the_turn_without_touching_the_history() {
    let mut relay = Relay::new(BOT, "secret".to_string());
    let before = relay.clone();
    assert_eq!(relay.step(with_attachment("<@42> look", Some("image/jpeg"))), Action::Fetch);
    let action = relay.step(Event::FetchFailed);
    assert_eq!(action, reply("Error downloading attachment", None));
    assert_eq!(relay, before);
}

#[test]
fn bad_attachment_ends_the_turn_at_once() {
    let mut relay = Relay::new(BOT, "secret".to_string());
    let before = relay.clone();
    let action = relay.step(with_attachment("<@42> look", Some("video/mp4")));
    assert_eq!(action, reply("Unsupported attachment type", None));
    let action = relay.step(with_attachment("<@42> look", None));
    assert_eq!(action, reply("Could not find content type of attachment", None));
    assert_eq!(relay, before);
}

#[test]
fn long_answer_is_relayed_in_segments() {
    let mut relay = Relay::new(BOT, "secret".to_string());
    relay.step(said(7, "? tell me more"));
    let long = "y".repeat(4500);
    let answer = format!(
        "{{\"candidates\":[{{\"content\":{{\"parts\":[{{\"text\":\"{}\"}}]}},\"finishReason\":\"STOP\"}}],\"usageMetadata\":{{\"totalTokenCount\":77}}}}",
        long
    );
    match relay.step(Event::Answered(answer)) {
        Action::Reply(emission) => {
            assert_eq!(emission.chunks.len(), 3);
            assert_eq!(emission.chunks[0].len(), 2000);
            assert_eq!(emission.chunks[2].len(), 500);
            assert_eq!(emission.chunks.concat(), long);
            assert_eq!(emission.status, Some("Tokens: 77".to_string()));
        }
        other => panic!("a reply is given, not {:?}", other),
    }
    assert_eq!(relay.conversation.contents[1], Contents::model(long));
}
