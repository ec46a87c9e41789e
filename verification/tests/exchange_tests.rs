use gemini_relay::conversation::Conversation;
use gemini_relay::exchange::{
    begin_exchange, emit, fail_exchange, reset_exchange, resolve_exchange, settle_exchange, Reply,
    TransportError, FILTERED_REPLY, MALFORMED_REPLY, READ_FAILED, REJECTED_REPLY, RESET_REPLY,
    SEND_FAILED,
};
use gemini_relay::model::{Contents, InlineData, Role};
use gemini_relay::response::{MalformedResponseError, Outcome};

const SUCCESS: &str = "{\"candidates\":[{\"content\":{\"parts\":[{\"text\":\"hi\"}]},\"finishReason\":\"STOP\"}],\"usageMetadata\":{\"totalTokenCount\":5}}";

fn filled(n: usize) -> Conversation {
    let mut conversation = Conversation::default();
    for i in 0..n {
        conversation.add_message(Contents::user(format!("turn {}", i)));
    }
    conversation
}

#[test]
fn text_exchange_appends_both_turns() {
    let mut conversation = Conversation::default();
    let body = begin_exchange(&mut conversation, "hello", None).unwrap();
    assert!(body.contains("{\"role\":\"user\",\"parts\":[{\"text\":\"hello\"}]}"));
    assert_eq!(conversation.contents.len(), 1);
    let reply = resolve_exchange(&mut conversation, SUCCESS, "secret");
    assert_eq!(reply, Reply { text: "hi".to_string(), tokens: 5 });
    assert_eq!(conversation.contents.len(), 2);
    assert_eq!(conversation.contents[0], Contents::user("hello".to_string()));
    assert_eq!(conversation.contents[1], Contents::model("hi".to_string()));
    assert_eq!(conversation.contents[0].role, Role::User);
    assert_eq!(conversation.contents[1].role, Role::Model);
}

#[test]
fn safety_trigger_reverts_and_gives_the_placeholder() {
    let mut conversation = Conversation::default();
    begin_exchange(&mut conversation, "hello", None).unwrap();
    let reply = resolve_exchange(
        &mut conversation,
        "{\"candidates\":[{\"finishReason\":\"SAFETY\"}]}",
        "secret",
    );
    assert!(conversation.contents.is_empty());
    assert_eq!(reply.text, "https://i.imgur.com/DJqE6wq.jpeg");
    assert_eq!(reply.text, FILTERED_REPLY);
    assert_eq!(reply.tokens, -1);
}

#[test]
fn reset_clears_the_store_and_confirms() {
    let mut conversation = filled(5);
    let emission = reset_exchange(&mut conversation);
    assert!(conversation.contents.is_empty());
    assert_eq!(conversation.safety_settings.len(), 4);
    assert_eq!(emission.chunks, vec!["Conversation has been reset!".to_string()]);
    assert_eq!(emission.chunks[0], RESET_REPLY);
    assert_eq!(emission.status, Some("Tokens: 0".to_string()));
}

#[test]
fn transport_failure_restores_the_store() {
    let mut conversation = filled(3);
    let before = conversation.clone();
    begin_exchange(&mut conversation, "hello", None).unwrap();
    assert_eq!(conversation.contents.len(), 4);
    let reply = fail_exchange(&mut conversation, TransportError::Send);
    assert_eq!(conversation, before);
    assert_eq!(reply.text, "Error sending POST request to gemini");
    assert_eq!(reply.text, SEND_FAILED);
    assert_eq!(reply.tokens, -1);

    begin_exchange(&mut conversation, "hello", None).unwrap();
    let reply = fail_exchange(&mut conversation, TransportError::Read);
    assert_eq!(conversation, before);
    assert_eq!(reply.text, "Error getting text from gemini's POST request's response");
    assert_eq!(reply.text, READ_FAILED);
    assert_eq!(TransportError::Read.message(), READ_FAILED);
}

#[test]
fn malformed_answer_restores_the_store() {
    let mut conversation = filled(2);
    let before = conversation.clone();
    begin_exchange(&mut conversation, "hello", None).unwrap();
    let reply = resolve_exchange(&mut conversation, "<html>", "secret");
    assert_eq!(conversation, before);
    assert_eq!(reply.text, "Error deserializing json received from gemini");
    assert_eq!(reply.text, MALFORMED_REPLY);
    assert_eq!(reply.tokens, -1);
}

#[test]
fn rejected_request_restores_the_store() {
    let mut conversation = filled(2);
    let before = conversation.clone();
    begin_exchange(&mut conversation, "hello", None).unwrap();
    let reply = resolve_exchange(
        &mut conversation,
        "{\"error\":{\"code\":400,\"message\":\"key secret is not valid here\"}}",
        "secret",
    );
    assert_eq!(conversation, before);
    assert_eq!(reply.text, REJECTED_REPLY);
    assert_eq!(reply.tokens, -1);
}

#[test]
fn upstream_error_is_shown_without_the_api_key() {
    let mut conversation = filled(1);
    let before = conversation.clone();
    begin_exchange(&mut conversation, "hello", None).unwrap();
    let reply = resolve_exchange(
        &mut conversation,
        "{\"error\":{\"code\":403,\"message\":\"key=secret was refused; secretsecret\"}}",
        "secret",
    );
    assert_eq!(conversation, before);
    assert_eq!(reply.text, "key=API KEY was refused; API KEYAPI KEY");
    assert_eq!(reply.tokens, -1);
}

#[test]
fn empty_api_key_leaves_the_message_alone() {
    let mut conversation = filled(1);
    let reply = settle_exchange(
        &mut conversation,
        Ok(Outcome::UpstreamError { message: "quota".to_string() }),
        "",
    );
    assert_eq!(reply.text, "quota");
}

#[test]
fn settle_handles_every_outcome() {
    let mut conversation = filled(3);
    let reply = settle_exchange(&mut conversation, Err(MalformedResponseError), "k");
    assert_eq!(reply.text, MALFORMED_REPLY);
    assert_eq!(conversation.contents.len(), 2);
    let reply = settle_exchange(&mut conversation, Ok(Outcome::ContentFiltered), "k");
    assert_eq!(reply.text, FILTERED_REPLY);
    assert_eq!(conversation.contents.len(), 1);
    let reply = settle_exchange(
        &mut conversation,
        Ok(Outcome::Success { text: "done".to_string(), tokens: 9 }),
        "k",
    );
    assert_eq!(reply, Reply { text: "done".to_string(), tokens: 9 });
    assert_eq!(conversation.contents.len(), 2);
    assert_eq!(conversation.contents[1], Contents::model("done".to_string()));
    let reply = settle_exchange(&mut conversation, Ok(Outcome::UpstreamRejected), "k");
    assert_eq!(reply.text, REJECTED_REPLY);
    assert_eq!(conversation.contents.len(), 1);
}

#[test]
fn history_stays_bounded_and_keeps_the_most_recent_turns() {
    let mut conversation = Conversation::default();
    for i in 0..30 {
        let said = format!("question {}", i);
        begin_exchange(&mut conversation, &said, None).unwrap();
        assert!(conversation.contents.len() <= 20);
        let answer = format!(
            "{{\"candidates\":[{{\"content\":{{\"parts\":[{{\"text\":\"answer {}\"}}]}},\"finishReason\":\"STOP\"}}]}}",
            i
        );
        let reply = resolve_exchange(&mut conversation, &answer, "secret");
        assert_eq!(reply.text, format!("answer {}", i));
        let expected = if 2 * (i + 1) < 20 { 2 * (i + 1) } else { 19 };
        assert_eq!(conversation.contents.len(), expected);
        let last = conversation.contents.len() - 1;
        assert_eq!(conversation.contents[last], Contents::model(format!("answer {}", i)));
        assert_eq!(conversation.contents[last - 1], Contents::user(said));
    }
    assert_eq!(conversation.contents[0], Contents::model("answer 20".to_string()));
    assert_eq!(conversation.contents[1], Contents::user("question 21".to_string()));
}

#[test]
fn image_exchange_keeps_only_the_text_in_history() {
    let mut conversation = filled(2);
    let image = InlineData { data: "aGVsbG8=".to_string(), mimeType: "image/png".to_string() };
    let body = begin_exchange(&mut conversation, "what is this", Some(&image)).unwrap();
    assert!(body.contains("\"inlineData\":{\"data\":\"aGVsbG8=\",\"mimeType\":\"image/png\"}"));
    assert!(!body.contains("turn 0"));
    assert_eq!(conversation.contents.len(), 3);
    assert_eq!(conversation.contents[2], Contents::user("what is this".to_string()));
    let reply = resolve_exchange(&mut conversation, SUCCESS, "secret");
    assert_eq!(reply.text, "hi");
    assert_eq!(conversation.contents.len(), 4);
}

#[test]
fn emit_splits_the_text_and_shows_the_token_count() {
    let emission = emit(&Reply { text: "hi".to_string(), tokens: 5 });
    assert_eq!(emission.chunks, vec!["hi".to_string()]);
    assert_eq!(emission.status, Some("Tokens: 5".to_string()));

    let long = "x".repeat(4100);
    let emission = emit(&Reply { text: long.clone(), tokens: 1234567 });
    assert_eq!(emission.chunks.len(), 3);
    assert_eq!(emission.chunks.concat(), long);
    assert_eq!(emission.status, Some("Tokens: 1234567".to_string()));
}

#[test]
fn emit_leaves_the_status_alone_without_a_count() {
    let emission = emit(&Reply { text: FILTERED_REPLY.to_string(), tokens: -1 });
    assert_eq!(emission.chunks, vec![FILTERED_REPLY.to_string()]);
    assert_eq!(emission.status, None);
    let empty = emit(&Reply { text: String::new(), tokens: -1 });
    assert!(empty.chunks.is_empty());
}

#[test]
fn status_shows_zero_and_negative_counts() {
    assert_eq!(emit(&Reply { text: "a".to_string(), tokens: 0 }).status, Some("Tokens: 0".to_string()));
    assert_eq!(emit(&Reply { text: "a".to_string(), tokens: 10 }).status, Some("Tokens: 10".to_string()));
    assert_eq!(emit(&Reply { text: "a".to_string(), tokens: -2 }).status, Some("Tokens: -2".to_string()));
    assert_eq!(
        emit(&Reply { text: "a".to_string(), tokens: i32::MIN }).status,
        Some("Tokens: -2147483648".to_string())
    );
    assert_eq!(
        emit(&Reply { text: "a".to_string(), tokens: i32::MAX }).status,
        Some("Tokens: 2147483647".to_string())
    );
}
