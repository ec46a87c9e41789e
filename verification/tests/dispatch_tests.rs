use gemini_relay::dispatch::{
    check_attachment, dispatch, encode_attachment, is_supported_image, mentions_user,
    strip_address, write_mention, AttachmentError, AttachmentInfo, Dispatch, InboundMessage,
    PRIVILEGED_USER,
};
use gemini_relay::text::{chars_of, replace_all, same_text, starts_with, string_of};

const BOT: u64 = 1234567890;

fn message(author_id: u64, text: &str, mentions: Vec<u64>) -> InboundMessage {
    InboundMessage { author_id, text: text.to_string(), mentions, attachments: vec![] }
}

fn attachment(content_type: Option<&str>) -> AttachmentInfo {
    AttachmentInfo { content_type: content_type.map(|t| t.to_string()) }
}

fn forward(text: &str) -> Dispatch {
    Dispatch::Forward { text: text.to_string(), image_type: None }
}

#[test]
fn own_messages_are_ignored() {
    assert_eq!(dispatch(BOT, &message(BOT, "? hello", vec![BOT])), Dispatch::Ignore);
    assert_eq!(
        dispatch(PRIVILEGED_USER, &message(PRIVILEGED_USER, "!resetgemini", vec![])),
        Dispatch::Ignore
    );
}

#[test]
fn unaddressed_messages_are_ignored() {
    assert_eq!(dispatch(BOT, &message(7, "hello", vec![])), Dispatch::Ignore);
    assert_eq!(dispatch(BOT, &message(7, "?hello", vec![])), Dispatch::Ignore);
    assert_eq!(dispatch(BOT, &message(7, "hello <@1234567890>", vec![8, 9])), Dispatch::Ignore);
    assert_eq!(dispatch(BOT, &message(7, "", vec![])), Dispatch::Ignore);
}

#[test]
fn privileged_user_resets_without_addressing_the_bot() {
    assert_eq!(dispatch(BOT, &message(202850246261211136, "!resetgemini", vec![])), Dispatch::Reset);
    assert_eq!(dispatch(BOT, &message(PRIVILEGED_USER, "!resetgemini", vec![BOT])), Dispatch::Reset);
}

#[test]
fn reset_command_needs_the_privileged_user_and_the_exact_text() {
    assert_eq!(dispatch(BOT, &message(7, "!resetgemini", vec![])), Dispatch::Ignore);
    assert_eq!(dispatch(BOT, &message(7, "!resetgemini", vec![BOT])), forward("!resetgemini"));
    assert_eq!(dispatch(BOT, &message(PRIVILEGED_USER, "!resetgemini ", vec![])), Dispatch::Ignore);
    assert_eq!(
        dispatch(BOT, &message(PRIVILEGED_USER, "? !resetgemini", vec![])),
        forward("!resetgemini")
    );
}

#[test]
fn mention_is_taken_off_the_forwarded_text() {
    assert_eq!(dispatch(BOT, &message(7, "<@1234567890> hello", vec![BOT])), forward("hello"));
    assert_eq!(dispatch(BOT, &message(7, "<@1234567890>hello", vec![BOT])), forward("hello"));
    assert_eq!(
        dispatch(BOT, &message(7, "hello <@1234567890> there<@1234567890>", vec![3, BOT])),
        forward("hello  there")
    );
    assert_eq!(dispatch(BOT, &message(7, "<@99> hello", vec![BOT, 99])), forward("<@99> hello"));
}

#[test]
fn prefix_is_taken_off_the_forwarded_text() {
    assert_eq!(dispatch(BOT, &message(7, "? hello", vec![])), forward("hello"));
    assert_eq!(dispatch(BOT, &message(7, "? ", vec![])), forward(""));
    assert_eq!(dispatch(BOT, &message(7, "?  hello", vec![])), forward(" hello"));
    assert_eq!(dispatch(BOT, &message(7, "? <@1234567890> hi", vec![BOT])), forward(" hi"));
}

#[test]
fn strip_address_follows_the_text() {
    assert_eq!(strip_address(" hello", BOT), "hello");
    assert_eq!(strip_address("hello", BOT), "hello");
    assert_eq!(strip_address("? hello", BOT), "hello");
    assert_eq!(strip_address("<@1234567890>", BOT), "");
    assert_eq!(strip_address("", BOT), "");
    assert_eq!(strip_address("? \u{e9}t\u{e9}", BOT), "\u{e9}t\u{e9}");
}

#[test]
fn mention_is_written_with_the_decimal_id() {
    assert_eq!(write_mention(0), "<@0>");
    assert_eq!(write_mention(7), "<@7>");
    assert_eq!(write_mention(10), "<@10>");
    assert_eq!(write_mention(202850246261211136), "<@202850246261211136>");
    assert_eq!(write_mention(u64::MAX), "<@18446744073709551615>");
}

#[test]
fn mentions_user_finds_the_id() {
    assert!(mentions_user(&vec![1, 2, 3], 3));
    assert!(!mentions_user(&vec![1, 2, 3], 4));
    assert!(!mentions_user(&vec![], 4));
}

#[test]
fn supported_image_types_are_exactly_three() {
    assert!(is_supported_image("image/jpg"));
    assert!(is_supported_image("image/jpeg"));
    assert!(is_supported_image("image/png"));
    assert!(!is_supported_image("image/gif"));
    assert!(!is_supported_image("image/PNG"));
    assert!(!is_supported_image("text"));
    assert!(!is_supported_image(""));
}

#[test]
fn supported_attachment_is_fetched() {
    let mut inbound = message(7, "? look", vec![]);
    inbound.attachments = vec![attachment(Some("image/png"))];
    assert_eq!(
        dispatch(BOT, &inbound),
        Dispatch::Forward { text: "look".to_string(), image_type: Some("image/png".to_string()) }
    );
}

#[test]
fn unsupported_attachment_ends_the_turn() {
    let mut inbound = message(7, "? look", vec![]);
    inbound.attachments = vec![attachment(Some("application/pdf"))];
    assert_eq!(dispatch(BOT, &inbound), Dispatch::Reject { error: AttachmentError::UnsupportedType });
    assert_eq!(AttachmentError::UnsupportedType.message(), "Unsupported attachment type");
}

#[test]
fn attachment_without_type_ends_the_turn() {
    let mut inbound = message(7, "? look", vec![]);
    inbound.attachments = vec![attachment(None)];
    assert_eq!(dispatch(BOT, &inbound), Dispatch::Reject { error: AttachmentError::MissingType });
    assert_eq!(
        AttachmentError::MissingType.message(),
        "Could not find content type of attachment"
    );
    assert_eq!(AttachmentError::FetchFailed.message(), "Error downloading attachment");
}

#[test]
fn only_the_first_attachment_counts() {
    let first_good = vec![attachment(Some("image/jpeg")), attachment(Some("application/pdf"))];
    assert_eq!(
        check_attachment("x".to_string(), &first_good),
        Dispatch::Forward { text: "x".to_string(), image_type: Some("image/jpeg".to_string()) }
    );
    let first_bad = vec![attachment(Some("application/pdf")), attachment(Some("image/jpeg"))];
    assert_eq!(
        check_attachment("x".to_string(), &first_bad),
        Dispatch::Reject { error: AttachmentError::UnsupportedType }
    );
    assert_eq!(check_attachment("x".to_string(), &vec![]), forward("x"));
}

#[test]
fn attachment_of_an_unaddressed_message_is_not_looked_at() {
    let mut inbound = message(7, "look", vec![]);
    inbound.attachments = vec![attachment(Some("application/pdf"))];
    assert_eq!(dispatch(BOT, &inbound), Dispatch::Ignore);
}

#[test]
fn attachment_bytes_are_written_in_base64() {
    let image = encode_attachment(&b"hello".to_vec(), "image/png".to_string());
    assert_eq!(image.data, "aGVsbG8=");
    assert_eq!(image.mimeType, "image/png");
    assert_eq!(encode_attachment(&vec![], "image/jpg".to_string()).data, "");
    assert_eq!(encode_attachment(&vec![0xfb, 0xff, 0xfe], "image/jpg".to_string()).data, "+//+");
}

#[test]
fn replace_all_replaces_from_the_left_without_overlap() {
    assert_eq!(replace_all("aaa", "aa", "b"), "ba");
    assert_eq!(replace_all("abcabc", "bc", "X"), "aXaX");
    assert_eq!(replace_all("abc", "abc", ""), "");
    assert_eq!(replace_all("abc", "abcd", "X"), "abc");
    assert_eq!(replace_all("", "a", "X"), "");
    assert_eq!(replace_all("abc", "", "X"), "abc");
    assert_eq!(replace_all("a\u{e9}b", "\u{e9}", "e"), "aeb");
}

#[test]
fn text_helpers_agree_with_the_standard_library() {
    assert_eq!(chars_of("h\u{e9}llo"), vec!['h', '\u{e9}', 'l', 'l', 'o']);
    assert_eq!(string_of(&vec!['h', '\u{e9}']), "h\u{e9}");
    assert!(same_text("abc", "abc"));
    assert!(!same_text("abc", "abd"));
    assert!(!same_text("abc", "ab"));
    assert!(starts_with("? x", "? "));
    assert!(!starts_with("?", "? "));
    assert!(starts_with("abc", ""));
}
