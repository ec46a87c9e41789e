//! Building the body of a request to the generative-language service.
//!
//! A request has one of two shapes. The text-only shape carries the whole
//! conversation and so gives the service its memory. The image shape carries
//! one image and the text that came with it, and no earlier turn. Both carry
//! the safety policy. Every text is written as a JSON string literal by
//! `serde_json`; the framing around the literals is fixed here.

use crate::conversation::{Conversation, ConversationView};
use crate::json::{collected, json_quoted, quote_text};
use crate::model::{Contents, InlineData, InlineDataView, Labels, Role, SafetySettings, Turn};
use vstd::prelude::*;
use vstd::string::*;

verus! {

/// A text could not be written as JSON.
#[derive(Clone, Copy, Debug, PartialEq, Eq, Structural)]
pub struct SerializationError;

/// `items` written one after the other, with a comma between neighbours.
pub open spec fn joined(items: Seq<Seq<char>>) -> Seq<char>
    decreases items.len(),
{
    if items.len() == 0 {
        Seq::empty()
    } else if items.len() == 1 {
        items[0]
    } else {
        joined(items.drop_last()) + seq![','] + items.last()
    }
}

/// The JSON array that holds `items`, where none is missing.
pub open spec fn json_array(items: Seq<Option<Seq<char>>>) -> Option<Seq<char>> {
    match collected(items) {
        Some(texts) => Some(seq!['['] + joined(texts) + seq![']']),
        None => None,
    }
}

/// The JSON object of one turn: its role, and its text as the only part.
pub open spec fn turn_json(turn: Turn) -> Option<Seq<char>> {
    match json_quoted(turn.text) {
        Some(text) => Some(
            match turn.role {
                Role::User => "{\"role\":\"user\",\"parts\":[{\"text\":"@,
                Role::Model => "{\"role\":\"model\",\"parts\":[{\"text\":"@,
            } + text + "}]}"@,
        ),
        None => None,
    }
}

/// The JSON object of one entry of the safety policy.
pub open spec fn setting_json(setting: Labels) -> Option<Seq<char>> {
    match (json_quoted(setting.category), json_quoted(setting.level)) {
        (Some(category), Some(threshold)) => Some(
            "{\"category\":"@ + category + ",\"threshold\":"@ + threshold + "}"@,
        ),
        _ => None,
    }
}

/// The JSON array of the turns of a conversation, oldest first.
pub open spec fn turns_json(turns: Seq<Turn>) -> Option<Seq<char>> {
    json_array(turns.map_values(|turn: Turn| turn_json(turn)))
}

/// The JSON array of the safety policy.
pub open spec fn policy_json(policy: Seq<Labels>) -> Option<Seq<char>> {
    json_array(policy.map_values(|setting: Labels| setting_json(setting)))
}

/// The body of a text-only request: every turn, then the safety policy.
pub open spec fn text_request_json(turns: Seq<Turn>, policy: Seq<Labels>) -> Option<Seq<char>> {
    match (turns_json(turns), policy_json(policy)) {
        (Some(contents), Some(settings)) => Some(
            "{\"contents\":"@ + contents + ",\"safety_settings\":"@ + settings + "}"@,
        ),
        _ => None,
    }
}

/// The body of an image request: the image, the text, then the safety policy.
pub open spec fn image_request_json(
    text: Seq<char>,
    image: InlineDataView,
    policy: Seq<Labels>,
) -> Option<Seq<char>> {
    match (
        json_quoted(image.data),
        json_quoted(image.mimeType),
        json_quoted(text),
        policy_json(policy),
    ) {
        (Some(data), Some(mime), Some(words), Some(settings)) => Some(
            "{\"contents\":{\"role\":\"user\",\"parts\":[{\"inlineData\":{\"data\":"@ + data
                + ",\"mimeType\":"@ + mime + "}},{\"text\":"@ + words
                + "}]},\"safety_settings\":"@ + settings + "}"@,
        ),
        _ => None,
    }
}

/// The body of the request for a conversation whose last turn is the user's
/// new one: the image shape where an image came with `text`, else the
/// text-only shape.
pub open spec fn request_json(
    conversation: ConversationView,
    text: Seq<char>,
    image: Option<InlineDataView>,
) -> Option<Seq<char>> {
    match image {
        Some(picture) => image_request_json(text, picture, conversation.policy),
        None => text_request_json(conversation.turns, conversation.policy),
    }
}

/// What a failed or successful serialization hands back.
pub open spec fn serialized(body: Option<Seq<char>>, result: Result<String, SerializationError>)
    -> bool {
    match body {
        Some(text) => result matches Ok(written) && written@ == text,
        None => result is Err,
    }
}

fn join(items: &Vec<String>) -> (out: String)
    ensures
        out@ == seq!['['] + joined(items.deep_view()) + seq![']'],
{
    let mut out = String::new();
    out.push('[');
    let mut i: usize = 0;
    while i < items.len()
        invariant
            i <= items.len(),
            out@ == seq!['['] + joined(items.deep_view().take(i as int)),
        decreases items.len() - i,
    {
        let ghost before = items.deep_view().take(i as int);
        let ghost after = items.deep_view().take(i + 1);
        proof {
            assert(after.drop_last() == before);
            assert(after.last() == items[i as int]@);
        }
        if i > 0 {
            out.push(',');
            assert(out@ == seq!['['] + (joined(before) + seq![',']));
        } else {
            assert(joined(before) == Seq::<char>::empty());
        }
        out.append(items[i].as_str());
        assert(out@ == seq!['['] + joined(after));
        i += 1;
    }
    assert(items.deep_view().take(items.len() as int) == items.deep_view());
    out.push(']');
    out
}

fn write_turn(turn: &Contents) -> (out: Option<String>)
    ensures
        out.is_some() == turn_json(turn@).is_some(),
        out matches Some(text) ==> turn_json(turn@) == Some(text@),
{
    match quote_text(turn.parts.text.as_str()) {
        Some(text) => {
            let mut out = match turn.role {
                Role::User => "{\"role\":\"user\",\"parts\":[{\"text\":".to_owned(),
                Role::Model => "{\"role\":\"model\",\"parts\":[{\"text\":".to_owned(),
            };
            out.append(text.as_str());
            out.append("}]}");
            Some(out)
        },
        None => None,
    }
}

fn write_setting(setting: &SafetySettings) -> (out: Option<String>)
    ensures
        out.is_some() == setting_json(setting@).is_some(),
        out matches Some(text) ==> setting_json(setting@) == Some(text@),
{
    let category = match quote_text(setting.category.as_str()) {
        Some(category) => category,
        None => { return None; },
    };
    let threshold = match quote_text(setting.threshold.as_str()) {
        Some(threshold) => threshold,
        None => { return None; },
    };
    let mut out = "{\"category\":".to_owned();
    out.append(category.as_str());
    out.append(",\"threshold\":");
    out.append(threshold.as_str());
    out.append("}");
    Some(out)
}

fn write_turns(turns: &Vec<Contents>) -> (out: Option<String>)
    ensures
        out.is_some() == turns_json(turns.deep_view()).is_some(),
        out matches Some(text) ==> turns_json(turns.deep_view()) == Some(text@),
{
    let ghost items = turns.deep_view().map_values(|turn: Turn| turn_json(turn));
    let mut texts: Vec<String> = Vec::new();
    let mut i: usize = 0;
    while i < turns.len()
        invariant
            i <= turns.len(),
            items == turns.deep_view().map_values(|turn: Turn| turn_json(turn)),
            texts.len() == i,
            forall|k: int| 0 <= k < i ==> items[k] == Some(#[trigger] texts[k]@),
        decreases turns.len() - i,
    {
        match write_turn(&turns[i]) {
            Some(text) => {
                texts.push(text);
            },
            None => {
                assert(items[i as int] is None);
                return None;
            },
        }
        i += 1;
    }
    proof {
        assert forall|k: int| 0 <= k < items.len() implies (#[trigger] items[k]) is Some by {
            assert(items[k] == Some(texts[k]@));
        }
        assert(collected(items).unwrap() =~= texts.deep_view()) by {
            assert forall|k: int| 0 <= k < items.len() implies collected(items).unwrap()[k]
                == texts.deep_view()[k] by {
                assert(items[k] == Some(texts[k]@));
            }
        }
    }
    Some(join(&texts))
}

fn write_policy(policy: &Vec<SafetySettings>) -> (out: Option<String>)
    ensures
        out.is_some() == policy_json(policy.deep_view()).is_some(),
        out matches Some(text) ==> policy_json(policy.deep_view()) == Some(text@),
{
    let ghost items = policy.deep_view().map_values(|setting: Labels| setting_json(setting));
    let mut texts: Vec<String> = Vec::new();
    let mut i: usize = 0;
    while i < policy.len()
        invariant
            i <= policy.len(),
            items == policy.deep_view().map_values(|setting: Labels| setting_json(setting)),
            texts.len() == i,
            forall|k: int| 0 <= k < i ==> items[k] == Some(#[trigger] texts[k]@),
        decreases policy.len() - i,
    {
        match write_setting(&policy[i]) {
            Some(text) => {
                texts.push(text);
            },
            None => {
                assert(items[i as int] is None);
                return None;
            },
        }
        i += 1;
    }
    proof {
        assert forall|k: int| 0 <= k < items.len() implies (#[trigger] items[k]) is Some by {
            assert(items[k] == Some(texts[k]@));
        }
        assert(collected(items).unwrap() =~= texts.deep_view()) by {
            assert forall|k: int| 0 <= k < items.len() implies collected(items).unwrap()[k]
                == texts.deep_view()[k] by {
                assert(items[k] == Some(texts[k]@));
            }
        }
    }
    Some(join(&texts))
}

/// Writes the body of a text-only request: all of `turns`, oldest first, and
/// the safety policy.
pub fn text_request(turns: &Vec<Contents>, policy: &Vec<SafetySettings>) -> (body: Result<
    String,
    SerializationError,
>)
    ensures
        serialized(text_request_json(turns.deep_view(), policy.deep_view()), body),
{
    let contents = match write_turns(turns) {
        Some(contents) => contents,
        None => { return Err(SerializationError); },
    };
    let settings = match write_policy(policy) {
        Some(settings) => settings,
        None => { return Err(SerializationError); },
    };
    let mut out = "{\"contents\":".to_owned();
    out.append(contents.as_str());
    out.append(",\"safety_settings\":");
    out.append(settings.as_str());
    out.append("}");
    Ok(out)
}

/// Writes the body of an image request: the image, the text that came with
/// it, and the safety policy. No earlier turn is sent.
pub fn image_request(text: &str, image: &InlineData, policy: &Vec<SafetySettings>) -> (body:
    Result<String, SerializationError>)
    ensures
        serialized(image_request_json(text@, image@, policy.deep_view()), body),
{
    let data = match quote_text(image.data.as_str()) {
        Some(data) => data,
        None => { return Err(SerializationError); },
    };
    let mime = match quote_text(image.mimeType.as_str()) {
        Some(mime) => mime,
        None => { return Err(SerializationError); },
    };
    let words = match quote_text(text) {
        Some(words) => words,
        None => { return Err(SerializationError); },
    };
    let settings = match write_policy(policy) {
        Some(settings) => settings,
        None => { return Err(SerializationError); },
    };
    let mut out = "{\"contents\":{\"role\":\"user\",\"parts\":[{\"inlineData\":{\"data\":".to_owned();
    out.append(data.as_str());
    out.append(",\"mimeType\":");
    out.append(mime.as_str());
    out.append("}},{\"text\":");
    out.append(words.as_str());
    out.append("}]},\"safety_settings\":");
    out.append(settings.as_str());
    out.append("}");
    Ok(out)
}

/// Writes the body of the request for `conversation`, whose last turn is the
/// user's new one with the text `text`.
///
/// With an image the body has the image shape and holds `text` and the image
/// only; without, it holds the whole conversation.
pub fn build_request(conversation: &Conversation, text: &str, image: Option<&InlineData>) -> (body:
    Result<String, SerializationError>)
    ensures
        serialized(
            request_json(
                conversation@,
                text@,
                match image {
                    Some(picture) => Some(picture@),
                    None => None,
                },
            ),
            body,
        ),
{
    match image {
        Some(picture) => image_request(text, picture, &conversation.safety_settings),
        None => text_request(&conversation.contents, &conversation.safety_settings),
    }
}

} // verus!
