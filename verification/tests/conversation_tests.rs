use gemini_relay::conversation::{Conversation, MAX_TURNS};
use gemini_relay::model::{Contents, Parts, Role, SafetySettings};

fn numbered(n: usize) -> Conversation {
    let mut conversation = Conversation::default();
    for i in 0..n {
        let text = format!("turn {}", i);
        if i % 2 == 0 {
            conversation.add_message(Contents::user(text));
        } else {
            conversation.add_message(Contents::model(text));
        }
    }
    conversation
}

#[test]
fn new_conversation_is_empty_with_the_default_policy() {
    let conversation = Conversation::default();
    assert!(conversation.contents.is_empty());
    let expected: Vec<SafetySettings> = [
        "HARM_CATEGORY_SEXUALLY_EXPLICIT",
        "HARM_CATEGORY_HATE_SPEECH",
        "HARM_CATEGORY_HARASSMENT",
        "HARM_CATEGORY_DANGEROUS_CONTENT",
    ]
    .iter()
    .map(|c| SafetySettings { category: c.to_string(), threshold: "BLOCK_NONE".to_string() })
    .collect();
    assert_eq!(conversation.safety_settings, expected);
}

#[test]
fn add_message_appends_at_the_end() {
    let mut conversation = Conversation::default();
    conversation.add_message(Contents::user("one".to_string()));
    conversation.add_message(Contents::model("two".to_string()));
    assert_eq!(conversation.contents.len(), 2);
    assert_eq!(conversation.contents[0].role, Role::User);
    assert_eq!(conversation.contents[0].parts, Parts { text: "one".to_string() });
    assert_eq!(conversation.contents[1].role, Role::Model);
    assert_eq!(conversation.contents[1].parts.text, "two");
}

#[test]
fn revert_on_an_empty_conversation_changes_nothing() {
    let mut conversation = Conversation::default();
    let before = conversation.clone();
    conversation.revert();
    assert_eq!(conversation, before);
}

#[test]
fn revert_undoes_the_last_append() {
    let mut conversation = numbered(3);
    let before = conversation.clone();
    conversation.add_message(Contents::user("provisional".to_string()));
    conversation.revert();
    assert_eq!(conversation, before);
}

#[test]
fn reset_removes_every_turn_and_keeps_the_policy() {
    let mut conversation = numbered(5);
    let policy = conversation.safety_settings.clone();
    conversation.reset_conversation();
    assert!(conversation.contents.is_empty());
    assert_eq!(conversation.safety_settings, policy);
}

#[test]
fn delete_old_leaves_a_short_history_alone() {
    let mut conversation = numbered(MAX_TURNS - 1);
    let before = conversation.clone();
    conversation.delete_old();
    assert_eq!(conversation, before);
}

#[test]
fn delete_old_cuts_a_full_history_to_one_below_the_limit() {
    let mut conversation = numbered(MAX_TURNS);
    conversation.delete_old();
    assert_eq!(conversation.contents.len(), 19);
    assert_eq!(conversation.contents[0].parts.text, "turn 1");
    assert_eq!(conversation.contents[18].parts.text, "turn 19");
}

#[test]
fn delete_old_keeps_the_most_recent_turns_in_order() {
    let mut conversation = numbered(25);
    conversation.delete_old();
    assert_eq!(conversation.contents.len(), 19);
    for (k, turn) in conversation.contents.iter().enumerate() {
        assert_eq!(turn.parts.text, format!("turn {}", k + 6));
    }
}

#[test]
fn default_turn_is_an_empty_user_turn() {
    let turn = Contents::default();
    assert_eq!(turn.role, Role::User);
    assert_eq!(turn.parts.text, "");
}
