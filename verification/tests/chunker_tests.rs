use gemini_relay::chunker::{split_string, split_text, MAX_MESSAGE_LEN};

fn repeat(c: char, n: usize) -> String {
    let mut s = String::new();
    for _ in 0..n {
        s.push(c);
    }
    s
}

#[test]
fn empty_text_gives_no_segment() {
    assert!(split_string(&String::new()).is_empty());
    assert!(split_text("", 5).is_empty());
}

#[test]
fn short_text_is_one_segment() {
    let parts = split_string(&"hello".to_string());
    assert_eq!(parts, vec!["hello".to_string()]);
}

#[test]
fn text_of_exactly_the_limit_is_one_segment() {
    let text = repeat('a', MAX_MESSAGE_LEN);
    let parts = split_string(&text);
    assert_eq!(parts.len(), 1);
    assert_eq!(parts[0], text);
}

#[test]
fn one_character_over_the_limit_gives_a_second_segment() {
    let text = repeat('a', MAX_MESSAGE_LEN + 1);
    let parts = split_string(&text);
    assert_eq!(parts.len(), 2);
    assert_eq!(parts[0].len(), 2000);
    assert_eq!(parts[1], "a");
}

#[test]
fn long_text_is_split_in_order_without_loss() {
    let mut text = repeat('a', 2000);
    text.push_str(&repeat('b', 2000));
    text.push_str(&repeat('c', 500));
    let parts = split_string(&text);
    assert_eq!(parts.len(), 3);
    assert_eq!(parts[0], repeat('a', 2000));
    assert_eq!(parts[1], repeat('b', 2000));
    assert_eq!(parts[2], repeat('c', 500));
    assert_eq!(parts.concat(), text);
}

#[test]
fn segments_follow_the_given_limit() {
    let parts = split_text("abcdefgh", 3);
    assert_eq!(parts, vec!["abc".to_string(), "def".to_string(), "gh".to_string()]);
}

#[test]
fn segment_count_is_the_rounded_up_quotient() {
    for len in 1..40usize {
        for max in 1..9usize {
            let text = repeat('x', len);
            let parts = split_text(&text, max);
            assert_eq!(parts.len(), (len + max - 1) / max);
            assert!(parts.iter().all(|p| !p.is_empty() && p.chars().count() <= max));
            assert_eq!(parts.concat(), text);
        }
    }
}

#[test]
fn lengths_are_counted_in_characters() {
    let parts = split_text("\u{e9}\u{e9}\u{e9}", 2);
    assert_eq!(parts, vec!["\u{e9}\u{e9}".to_string(), "\u{e9}".to_string()]);
}

#[test]
fn limit_of_zero_gives_no_segment() {
    assert!(split_text("abc", 0).is_empty());
}
