//! Reading a reply of the generative-language service and telling what came
//! of the exchange.
//!
//! A reply is a JSON object. A member that is missing takes its default; a
//! member that is present with another JSON type than expected makes the
//! reply malformed, as does a text that is no JSON document.

use crate::json::{Json, collected, parsed_json};
use crate::model::{
    ABSENT,
    CandidateView,
    Candidates,
    Content,
    ContentView,
    Error,
    ErrorView,
    FinishReason,
    Labels,
    Parts,
    Response,
    ResponseView,
    SafetyRatings,
    UsageMetadata,
    default_content,
    default_error,
    default_candidate,
    default_ratings,
    default_response,
    default_usage,
};
use crate::text::same_text;
use vstd::prelude::*;

verus! {

/// The reply is no JSON document, or not of the expected shape.
#[derive(Clone, Copy, Debug, PartialEq, Eq, Structural)]
pub struct MalformedResponseError;

/// Error code with which the service refuses a request outright.
pub const REJECTED_CODE: i32 = 400;

/// The text member `name` of `json`: its value, `default` where it is
/// missing, `None` where it is no text.
pub open spec fn text_member(json: Json, name: Seq<char>, default: Seq<char>) -> Option<
    Seq<char>,
> {
    match json.field(name) {
        None => Some(default),
        Some(Json::Text(text)) => Some(text@),
        Some(_) => None,
    }
}

/// The numeric member `name` of `json`: its value, `ABSENT` where it is
/// missing, `None` where it is no integer of 32 bits.
pub open spec fn count_member(json: Json, name: Seq<char>) -> Option<i32> {
    match json.field(name) {
        None => Some(ABSENT),
        Some(Json::Number(Some(n))) => if i32::MIN <= n <= i32::MAX {
            Some(n as i32)
        } else {
            None
        },
        Some(_) => None,
    }
}

/// The finish reason that the service writes as `name`.
pub open spec fn finish_reason_named(name: Seq<char>) -> FinishReason {
    if name == "STOP"@ {
        FinishReason::Stop
    } else if name == "SAFETY"@ {
        FinishReason::Safety
    } else {
        FinishReason::Other
    }
}

/// The finish reason of a candidate: `Unset` where it names none.
pub open spec fn finish_reason_of(json: Json) -> Option<FinishReason> {
    match json.field("finishReason"@) {
        None => Some(FinishReason::Unset),
        Some(Json::Text(name)) => Some(finish_reason_named(name@)),
        Some(_) => None,
    }
}

/// The text of one part.
pub open spec fn part_of(json: Json) -> Option<Seq<char>> {
    if json is Object {
        text_member(json, "text"@, Seq::empty())
    } else {
        None
    }
}

/// One safety rating.
pub open spec fn rating_of(json: Json) -> Option<Labels> {
    if json is Object {
        match (
            text_member(json, "category"@, Seq::empty()),
            text_member(json, "probability"@, Seq::empty()),
        ) {
            (Some(category), Some(level)) => Some(Labels { category, level }),
            _ => None,
        }
    } else {
        None
    }
}

/// The texts of the parts in `items`, where each can be read.
pub open spec fn parts_of(items: Seq<Json>) -> Option<Seq<Seq<char>>> {
    collected(items.map_values(|part: Json| part_of(part)))
}

/// The safety ratings in `items`, where each can be read.
pub open spec fn ratings_of(items: Seq<Json>) -> Option<Seq<Labels>> {
    collected(items.map_values(|rating: Json| rating_of(rating)))
}

/// The content of a candidate; without a member `parts` it has the one empty
/// part of the default content.
pub open spec fn content_of(json: Json) -> Option<ContentView> {
    if json is Object {
        match (
            text_member(json, "role"@, Seq::empty()),
            match json.field("parts"@) {
                None => Some(default_content().parts),
                Some(Json::Array(items)) => parts_of(items@),
                Some(_) => None,
            },
        ) {
            (Some(role), Some(parts)) => Some(ContentView { role, parts }),
            _ => None,
        }
    } else {
        None
    }
}

/// One candidate; a member that is missing is that of the default candidate.
pub open spec fn candidate_of(json: Json) -> Option<CandidateView> {
    if json is Object {
        match (
            match json.field("content"@) {
                None => Some(default_content()),
                Some(content) => content_of(content),
            },
            finish_reason_of(json),
            count_member(json, "index"@),
            match json.field("safetyRatings"@) {
                None => Some(default_candidate().safetyRatings),
                Some(Json::Array(items)) => ratings_of(items@),
                Some(_) => None,
            },
        ) {
            (Some(content), Some(reason), Some(index), Some(ratings)) => Some(
                CandidateView {
                    content,
                    finishReason: reason,
                    index,
                    safetyRatings: ratings,
                },
            ),
            _ => None,
        }
    } else {
        None
    }
}

/// The token counts of a reply.
pub open spec fn usage_of(json: Json) -> Option<UsageMetadata> {
    if json is Object {
        match (
            count_member(json, "promptTokenCount"@),
            count_member(json, "candidatesTokenCount"@),
            count_member(json, "totalTokenCount"@),
        ) {
            (Some(prompt), Some(candidates), Some(total)) => Some(
                UsageMetadata {
                    promptTokenCount: prompt,
                    candidatesTokenCount: candidates,
                    totalTokenCount: total,
                },
            ),
            _ => None,
        }
    } else {
        None
    }
}

/// The error report of a reply.
pub open spec fn error_of(json: Json) -> Option<ErrorView> {
    if json is Object {
        match (
            count_member(json, "code"@),
            text_member(json, "message"@, default_error().message),
            text_member(json, "status"@, Seq::empty()),
        ) {
            (Some(code), Some(message), Some(status)) => Some(ErrorView { code, message, status }),
            _ => None,
        }
    } else {
        None
    }
}

/// The candidates in `items`, where each can be read.
pub open spec fn candidates_of(items: Seq<Json>) -> Option<Seq<CandidateView>> {
    collected(items.map_values(|candidate: Json| candidate_of(candidate)))
}

/// The reply that the document `json` holds, or `None` where it is not of
/// the expected shape. A member that is missing is that of the default reply.
pub open spec fn response_of(json: Json) -> Option<ResponseView> {
    if json is Object {
        match (
            match json.field("candidates"@) {
                None => Some(default_response().candidates),
                Some(Json::Array(items)) => candidates_of(items@),
                Some(_) => None,
            },
            match json.field("usageMetadata"@) {
                None => Some(default_usage()),
                Some(usage) => usage_of(usage),
            },
            match json.field("error"@) {
                None => Some(default_error()),
                Some(error) => error_of(error),
            },
        ) {
            (Some(candidates), Some(usage), Some(error)) => Some(
                ResponseView { candidates, usageMetadata: usage, error },
            ),
            _ => None,
        }
    } else {
        None
    }
}

fn read_text(json: &Json, name: &str, default: String) -> (out: Option<String>)
    ensures
        out.is_some() == text_member(*json, name@, default@).is_some(),
        out matches Some(text) ==> text_member(*json, name@, default@) == Some(text@),
{
    match json.get(name) {
        None => Some(default),
        Some(Json::Text(text)) => Some(text.clone()),
        Some(_) => None,
    }
}

fn read_count(json: &Json, name: &str) -> (out: Option<i32>)
    ensures
        out == count_member(*json, name@),
{
    match json.get(name) {
        None => Some(ABSENT),
        Some(Json::Number(Some(n))) => {
            if -2147483648 <= *n && *n <= 2147483647 {
                Some(*n as i32)
            } else {
                None
            }
        },
        Some(_) => None,
    }
}

fn read_finish_reason(json: &Json) -> (out: Option<FinishReason>)
    ensures
        out == finish_reason_of(*json),
{
    match json.get("finishReason") {
        None => Some(FinishReason::Unset),
        Some(Json::Text(name)) => {
            if same_text(name.as_str(), "STOP") {
                Some(FinishReason::Stop)
            } else if same_text(name.as_str(), "SAFETY") {
                Some(FinishReason::Safety)
            } else {
                Some(FinishReason::Other)
            }
        },
        Some(_) => None,
    }
}

fn read_part(json: &Json) -> (out: Option<Parts>)
    ensures
        out.is_some() == part_of(*json).is_some(),
        out matches Some(part) ==> part_of(*json) == Some(part@),
{
    match json {
        Json::Object(_) => match read_text(json, "text", String::new()) {
            Some(text) => Some(Parts { text }),
            None => None,
        },
        _ => None,
    }
}

fn read_rating(json: &Json) -> (out: Option<SafetyRatings>)
    ensures
        out.is_some() == rating_of(*json).is_some(),
        out matches Some(rating) ==> rating_of(*json) == Some(rating@),
{
    match json {
        Json::Object(_) => {
            let category = match read_text(json, "category", String::new()) {
                Some(category) => category,
                None => { return None; },
            };
            let probability = match read_text(json, "probability", String::new()) {
                Some(probability) => probability,
                None => { return None; },
            };
            Some(SafetyRatings { category, probability })
        },
        _ => None,
    }
}

fn read_parts(items: &Vec<Json>) -> (out: Option<Vec<Parts>>)
    ensures
        out.is_some() == parts_of(items@).is_some(),
        out matches Some(parts) ==> parts_of(items@) == Some(parts.deep_view()),
{
    let ghost read = items@.map_values(|part: Json| part_of(part));
    let mut parts: Vec<Parts> = Vec::new();
    let mut i: usize = 0;
    while i < items.len()
        invariant
            i <= items.len(),
            read == items@.map_values(|part: Json| part_of(part)),
            parts.len() == i,
            forall|k: int| 0 <= k < i ==> read[k] == Some(#[trigger] parts[k]@),
        decreases items.len() - i,
    {
        match read_part(&items[i]) {
            Some(part) => {
                parts.push(part);
            },
            None => {
                assert(read[i as int] is None);
                return None;
            },
        }
        i += 1;
    }
    proof {
        assert forall|k: int| 0 <= k < read.len() implies (#[trigger] read[k]) is Some by {
            assert(read[k] == Some(parts[k]@));
        }
        assert(collected(read).unwrap() =~= parts.deep_view()) by {
            assert forall|k: int| 0 <= k < read.len() implies collected(read).unwrap()[k]
                == parts.deep_view()[k] by {
                assert(read[k] == Some(parts[k]@));
            }
        }
    }
    Some(parts)
}

fn read_ratings(items: &Vec<Json>) -> (out: Option<Vec<SafetyRatings>>)
    ensures
        out.is_some() == ratings_of(items@).is_some(),
        out matches Some(ratings) ==> ratings_of(items@) == Some(ratings.deep_view()),
{
    let ghost read = items@.map_values(|rating: Json| rating_of(rating));
    let mut ratings: Vec<SafetyRatings> = Vec::new();
    let mut i: usize = 0;
    while i < items.len()
        invariant
            i <= items.len(),
            read == items@.map_values(|rating: Json| rating_of(rating)),
            ratings.len() == i,
            forall|k: int| 0 <= k < i ==> read[k] == Some(#[trigger] ratings[k]@),
        decreases items.len() - i,
    {
        match read_rating(&items[i]) {
            Some(rating) => {
                ratings.push(rating);
            },
            None => {
                assert(read[i as int] is None);
                return None;
            },
        }
        i += 1;
    }
    proof {
        assert forall|k: int| 0 <= k < read.len() implies (#[trigger] read[k]) is Some by {
            assert(read[k] == Some(ratings[k]@));
        }
        assert(collected(read).unwrap() =~= ratings.deep_view()) by {
            assert forall|k: int| 0 <= k < read.len() implies collected(read).unwrap()[k]
                == ratings.deep_view()[k] by {
                assert(read[k] == Some(ratings[k]@));
            }
        }
    }
    Some(ratings)
}

fn read_content(json: &Json) -> (out: Option<Content>)
    ensures
        out.is_some() == content_of(*json).is_some(),
        out matches Some(content) ==> content_of(*json) == Some(content@),
{
    match json {
        Json::Object(_) => {
            let role = match read_text(json, "role", String::new()) {
                Some(role) => role,
                None => { return None; },
            };
            let parts = match json.get("parts") {
                None => Content::default().parts,
                Some(Json::Array(items)) => match read_parts(items) {
                    Some(parts) => parts,
                    None => { return None; },
                },
                Some(_) => { return None; },
            };
            Some(Content { role, parts })
        },
        _ => None,
    }
}

fn read_candidate(json: &Json) -> (out: Option<Candidates>)
    ensures
        out.is_some() == candidate_of(*json).is_some(),
        out matches Some(candidate) ==> candidate_of(*json) == Some(candidate@),
{
    match json {
        Json::Object(_) => {
            let content = match json.get("content") {
                None => Content::default(),
                Some(inner) => match read_content(inner) {
                    Some(content) => content,
                    None => { return None; },
                },
            };
            let reason = match read_finish_reason(json) {
                Some(reason) => reason,
                None => { return None; },
            };
            let index = match read_count(json, "index") {
                Some(index) => index,
                None => { return None; },
            };
            let ratings = match json.get("safetyRatings") {
                None => default_ratings(),
                Some(Json::Array(items)) => match read_ratings(items) {
                    Some(ratings) => ratings,
                    None => { return None; },
                },
                Some(_) => { return None; },
            };
            Some(Candidates { content, finishReason: reason, index, safetyRatings: ratings })
        },
        _ => None,
    }
}

fn read_candidates(items: &Vec<Json>) -> (out: Option<Vec<Candidates>>)
    ensures
        out.is_some() == candidates_of(items@).is_some(),
        out matches Some(candidates) ==> candidates_of(items@) == Some(candidates.deep_view()),
{
    let ghost read = items@.map_values(|candidate: Json| candidate_of(candidate));
    let mut candidates: Vec<Candidates> = Vec::new();
    let mut i: usize = 0;
    while i < items.len()
        invariant
            i <= items.len(),
            read == items@.map_values(|candidate: Json| candidate_of(candidate)),
            candidates.len() == i,
            forall|k: int| 0 <= k < i ==> read[k] == Some(#[trigger] candidates[k]@),
        decreases items.len() - i,
    {
        match read_candidate(&items[i]) {
            Some(candidate) => {
                candidates.push(candidate);
            },
            None => {
                assert(read[i as int] is None);
                return None;
            },
        }
        i += 1;
    }
    proof {
        assert forall|k: int| 0 <= k < read.len() implies (#[trigger] read[k]) is Some by {
            assert(read[k] == Some(candidates[k]@));
        }
        assert(collected(read).unwrap() =~= candidates.deep_view()) by {
            assert forall|k: int| 0 <= k < read.len() implies collected(read).unwrap()[k]
                == candidates.deep_view()[k] by {
                assert(read[k] == Some(candidates[k]@));
            }
        }
    }
    Some(candidates)
}

fn read_usage(json: &Json) -> (out: Option<UsageMetadata>)
    ensures
        out == usage_of(*json),
{
    match json {
        Json::Object(_) => {
            let prompt = match read_count(json, "promptTokenCount") {
                Some(prompt) => prompt,
                None => { return None; },
            };
            let candidates = match read_count(json, "candidatesTokenCount") {
                Some(candidates) => candidates,
                None => { return None; },
            };
            let total = match read_count(json, "totalTokenCount") {
                Some(total) => total,
                None => { return None; },
            };
            Some(
                UsageMetadata {
                    promptTokenCount: prompt,
                    candidatesTokenCount: candidates,
                    totalTokenCount: total,
                },
            )
        },
        _ => None,
    }
}

fn read_error(json: &Json) -> (out: Option<Error>)
    ensures
        out.is_some() == error_of(*json).is_some(),
        out matches Some(error) ==> error_of(*json) == Some(error@),
{
    match json {
        Json::Object(_) => {
            let code = match read_count(json, "code") {
                Some(code) => code,
                None => { return None; },
            };
            let message = match read_text(json, "message", "Unknown error".to_owned()) {
                Some(message) => message,
                None => { return None; },
            };
            let status = match read_text(json, "status", String::new()) {
                Some(status) => status,
                None => { return None; },
            };
            Some(Error { code, message, status })
        },
        _ => None,
    }
}

/// What reading a reply hands back: the reply where the document holds one,
/// else the error.
pub open spec fn decoded(
    reply: Option<ResponseView>,
    result: Result<Response, MalformedResponseError>,
) -> bool {
    match reply {
        Some(view) => result matches Ok(response) && response@ == view,
        None => result is Err,
    }
}

/// The reply that the text `parsed` was read from holds, if it is a document
/// of the expected shape.
pub open spec fn response_in(parsed: Option<Json>) -> Option<ResponseView> {
    match parsed {
        Some(json) => response_of(json),
        None => None,
    }
}

/// Reads a reply from a parsed document.
pub fn decode_response(json: &Json) -> (result: Result<Response, MalformedResponseError>)
    ensures
        decoded(response_of(*json), result),
{
    match json {
        Json::Object(_) => {
            let candidates = match json.get("candidates") {
                None => Response::default().candidates,
                Some(Json::Array(items)) => match read_candidates(items) {
                    Some(candidates) => candidates,
                    None => { return Err(MalformedResponseError); },
                },
                Some(_) => { return Err(MalformedResponseError); },
            };
            let usage = match json.get("usageMetadata") {
                None => UsageMetadata::default(),
                Some(inner) => match read_usage(inner) {
                    Some(usage) => usage,
                    None => { return Err(MalformedResponseError); },
                },
            };
            let error = match json.get("error") {
                None => Error::default(),
                Some(inner) => match read_error(inner) {
                    Some(error) => error,
                    None => { return Err(MalformedResponseError); },
                },
            };
            Ok(Response { candidates, usageMetadata: usage, error })
        },
        _ => Err(MalformedResponseError),
    }
}

/// Reads a reply from the text of an HTTP answer.
pub fn parse_response(body: &str) -> (result: Result<Response, MalformedResponseError>)
    ensures
        decoded(response_in(parsed_json(body@)), result),
{
    match Json::parse(body) {
        Some(json) => decode_response(&json),
        None => Err(MalformedResponseError),
    }
}

/// What came of an exchange, as contracts see it.
pub enum OutcomeView {
    UpstreamRejected,
    Success { text: Seq<char>, tokens: i32 },
    ContentFiltered,
    UpstreamError { message: Seq<char> },
}

/// What came of an exchange.
#[derive(Clone, Debug, PartialEq, Eq)]
pub enum Outcome {
    /// The service refused the request outright; asking again will not help.
    UpstreamRejected,
    /// The service answered: the answer's text and the exchange's total token
    /// count, `ABSENT` where the reply gave none.
    Success { text: String, tokens: i32 },
    /// The safety filter withheld the answer.
    ContentFiltered,
    /// The service reported another failure, with this message.
    UpstreamError { message: String },
}

impl View for Outcome {
    type V = OutcomeView;

    open spec fn view(&self) -> OutcomeView {
        match self {
            Outcome::UpstreamRejected => OutcomeView::UpstreamRejected,
            Outcome::Success { text, tokens } => OutcomeView::Success {
                text: text@,
                tokens: *tokens,
            },
            Outcome::ContentFiltered => OutcomeView::ContentFiltered,
            Outcome::UpstreamError { message } => OutcomeView::UpstreamError {
                message: message@,
            },
        }
    }
}

/// The outcome that a reply stands for. The error code is looked at first,
/// then the finish reason of the first candidate.
pub open spec fn classified(response: ResponseView) -> OutcomeView {
    if response.error.code == REJECTED_CODE {
        OutcomeView::UpstreamRejected
    } else if response.candidates.len() > 0 && response.candidates[0].finishReason
        == FinishReason::Stop {
        OutcomeView::Success {
            text: response.candidates[0].content.text(),
            tokens: response.usageMetadata.totalTokenCount,
        }
    } else if response.candidates.len() > 0 && response.candidates[0].finishReason
        == FinishReason::Safety {
        OutcomeView::ContentFiltered
    } else {
        OutcomeView::UpstreamError { message: response.error.message }
    }
}

/// Tells what came of the exchange that `response` answers.
pub fn classify(response: &Response) -> (outcome: Outcome)
    ensures
        outcome@ == classified(response@),
{
    if response.error.code == REJECTED_CODE {
        return Outcome::UpstreamRejected;
    }
    if response.candidates.len() > 0 {
        let first = &response.candidates[0];
        assert(response@.candidates[0] == first@);
        match first.finishReason {
            FinishReason::Stop => {
                let text = if first.content.parts.len() > 0 {
                    assert(first@.content.parts[0] == first.content.parts[0]@);
                    first.content.parts[0].text.clone()
                } else {
                    String::new()
                };
                return Outcome::Success { text, tokens: response.usageMetadata.totalTokenCount };
            },
            FinishReason::Safety => {
                return Outcome::ContentFiltered;
            },
            _ => {},
        }
    }
    Outcome::UpstreamError { message: response.error.message.clone() }
}

/// What interpreting a reply hands back: the outcome where the reply can
/// be read, else the error.
pub open spec fn interpreted(
    reply: Option<ResponseView>,
    result: Result<Outcome, MalformedResponseError>,
) -> bool {
    match reply {
        Some(view) => result matches Ok(outcome) && outcome@ == classified(view),
        None => result is Err,
    }
}

/// Reads the text of an HTTP answer and tells what came of the exchange.
pub fn interpret(body: &str) -> (result: Result<Outcome, MalformedResponseError>)
    ensures
        interpreted(response_in(parsed_json(body@)), result),
{
    match parse_response(body) {
        Ok(response) => Ok(classify(&response)),
        Err(error) => Err(error),
    }
}

} // verus!
