//! One exchange with the service, step by step.
//!
//! The caller holds the conversation for the whole exchange and does the
//! network round trip between the steps: [`begin_exchange`] appends the user's
//! turn and writes the request; then [`resolve_exchange`] takes the answer's
//! text, or [`fail_exchange`] the transport's failure. A step that fails takes
//! the user's turn back, so that a failed exchange leaves the conversation as
//! it found it. [`emit`] turns the reply into what is sent to the channel.

use crate::chunker::{MAX_MESSAGE_LEN, chunks, split_string};
use crate::conversation::{
    Conversation,
    ConversationView,
    MAX_TURNS,
    lemma_truncated_keeps_most_recent,
    most_recent,
    reverted,
    truncated,
};
use crate::json::parsed_json;
use crate::model::{
    ABSENT,
    Contents,
    InlineData,
    InlineDataView,
    ResponseView,
    Turn,
    model_turn,
    user_turn,
};
use crate::request::{build_request, request_json};
use crate::response::{
    MalformedResponseError,
    Outcome,
    OutcomeView,
    classified,
    interpret,
    response_in,
};
use crate::text::{decimal, push_signed_decimal, replace_all, replaced};
use vstd::prelude::*;

verus! {

/// Reply to a request that could not be written.
pub const SERIALIZATION_FAILED: &'static str = "Error creating json of user's message";

/// Reply when the request could not be sent.
pub const SEND_FAILED: &'static str = "Error sending POST request to gemini";

/// Reply when the answer could not be read.
pub const READ_FAILED: &'static str = "Error getting text from gemini's POST request's response";

/// Reply to an answer that is malformed.
pub const MALFORMED_REPLY: &'static str = "Error deserializing json received from gemini";

/// Reply when the service refused the request outright.
pub const REJECTED_REPLY: &'static str = "The request was rejected by the remote service";

/// Reply that stands in for an answer withheld by the safety filter.
pub const FILTERED_REPLY: &'static str = "https://i.imgur.com/DJqE6wq.jpeg";

/// What is shown in place of the API key.
pub const KEY_PLACEHOLDER: &'static str = "API KEY";

/// Reply that confirms a reset.
pub const RESET_REPLY: &'static str = "Conversation has been reset!";

/// What the status shows before the count.
pub const STATUS_LABEL: &'static str = "Tokens: ";

/// How the round trip to the service failed.
#[derive(Clone, Copy, Debug, PartialEq, Eq, Structural)]
pub enum TransportError {
    /// The request could not be sent.
    Send,
    /// The answer could not be read.
    Read,
}

impl TransportError {
    /// The text shown to the user.
    pub open spec fn spec_message(self) -> Seq<char> {
        match self {
            TransportError::Send => SEND_FAILED@,
            TransportError::Read => READ_FAILED@,
        }
    }

    /// The text shown to the user.
    pub fn message(&self) -> (text: String)
        ensures
            text@ == self.spec_message(),
    {
        match self {
            TransportError::Send => SEND_FAILED.to_owned(),
            TransportError::Read => READ_FAILED.to_owned(),
        }
    }
}

/// A reply as contracts see it.
pub struct ReplyView {
    pub text: Seq<char>,
    pub tokens: i32,
}

/// What one exchange gives back to the channel: the text to send, and the
/// exchange's total token count, `ABSENT` where none was counted.
#[derive(Clone, Debug, PartialEq, Eq)]
pub struct Reply {
    pub text: String,
    pub tokens: i32,
}

impl View for Reply {
    type V = ReplyView;

    open spec fn view(&self) -> ReplyView {
        ReplyView { text: self.text@, tokens: self.tokens }
    }
}

/// The reply that carries `text` and no token count.
pub open spec fn uncounted(text: Seq<char>) -> ReplyView {
    ReplyView { text, tokens: ABSENT }
}

/// The reply to an interpreted answer; `None` stands for a malformed one.
/// Only a success carries a token count. The message of an upstream error is
/// shown with every occurrence of the API key replaced.
pub open spec fn reply_to(outcome: Option<OutcomeView>, api_key: Seq<char>) -> ReplyView {
    match outcome {
        None => uncounted(MALFORMED_REPLY@),
        Some(OutcomeView::UpstreamRejected) => uncounted(REJECTED_REPLY@),
        Some(OutcomeView::Success { text, tokens }) => ReplyView { text, tokens },
        Some(OutcomeView::ContentFiltered) => uncounted(FILTERED_REPLY@),
        Some(OutcomeView::UpstreamError { message }) => uncounted(
            replaced(message, api_key, KEY_PLACEHOLDER@),
        ),
    }
}

/// The turns after an interpreted answer, given the turns that end with the
/// user's provisional turn: on success the model's turn is appended and the
/// history cut back; otherwise the user's turn is taken back.
pub open spec fn turns_after(turns: Seq<Turn>, outcome: Option<OutcomeView>) -> Seq<Turn> {
    match outcome {
        Some(OutcomeView::Success { text, tokens }) => truncated(turns.push(model_turn(text))),
        _ => reverted(turns),
    }
}

/// The outcome that an answer's text stands for, `None` where it is malformed.
pub open spec fn outcome_in(reply: Option<ResponseView>) -> Option<OutcomeView> {
    match reply {
        Some(response) => Some(classified(response)),
        None => None,
    }
}

/// The view of an interpretation's result.
pub open spec fn outcome_view(result: Result<Outcome, MalformedResponseError>) -> Option<
    OutcomeView,
> {
    match result {
        Ok(outcome) => Some(outcome@),
        Err(_) => None,
    }
}

/// The view of an optional image.
pub open spec fn image_view(image: Option<&InlineData>) -> Option<InlineDataView> {
    match image {
        Some(picture) => Some(picture@),
        None => None,
    }
}

fn uncounted_reply(text: &str) -> (reply: Reply)
    ensures
        reply@ == uncounted(text@),
{
    Reply { text: text.to_owned(), tokens: ABSENT }
}

/// Starts an exchange: appends the user's turn and writes the request.
///
/// Gives the body to send. Where the request cannot be written, the turn is
/// taken back and the reply for the user is given instead.
pub fn begin_exchange(conversation: &mut Conversation, text: &str, image: Option<&InlineData>) -> (step:
    Result<String, Reply>)
    ensures
        final(conversation)@.policy == old(conversation)@.policy,
        match request_json(
            ConversationView {
                turns: old(conversation)@.turns.push(user_turn(text@)),
                policy: old(conversation)@.policy,
            },
            text@,
            image_view(image),
        ) {
            Some(body) => {
                &&& step matches Ok(written)
                &&& written@ == body
                &&& final(conversation)@.turns == old(conversation)@.turns.push(user_turn(text@))
            },
            None => {
                &&& step matches Err(reply)
                &&& reply@ == uncounted(SERIALIZATION_FAILED@)
                &&& final(conversation)@.turns == old(conversation)@.turns
            },
        },
{
    conversation.add_message(Contents::user(text.to_owned()));
    match build_request(conversation, text, image) {
        Ok(body) => Ok(body),
        Err(_) => {
            conversation.revert();
            assert(old(conversation)@.turns.push(user_turn(text@)).drop_last() == old(
                conversation,
            )@.turns);
            Err(uncounted_reply(SERIALIZATION_FAILED))
        },
    }
}

/// Ends an exchange whose round trip failed: takes the user's turn back and
/// gives the reply for the user.
pub fn fail_exchange(conversation: &mut Conversation, error: TransportError) -> (reply: Reply)
    ensures
        final(conversation)@.policy == old(conversation)@.policy,
        final(conversation)@.turns == reverted(old(conversation)@.turns),
        reply@ == uncounted(error.spec_message()),
{
    conversation.revert();
    Reply { text: error.message(), tokens: ABSENT }
}

/// Ends an exchange whose answer has been interpreted.
///
/// On success the model's turn is appended and the history cut back; on
/// every other outcome the user's turn is taken back.
pub fn settle_exchange(
    conversation: &mut Conversation,
    result: Result<Outcome, MalformedResponseError>,
    api_key: &str,
) -> (reply: Reply)
    ensures
        final(conversation)@.policy == old(conversation)@.policy,
        final(conversation)@.turns == turns_after(old(conversation)@.turns, outcome_view(result)),
        reply@ == reply_to(outcome_view(result), api_key@),
{
    match result {
        Ok(Outcome::Success { text, tokens }) => {
            conversation.add_message(Contents::model(text.clone()));
            conversation.delete_old();
            Reply { text, tokens }
        },
        Ok(Outcome::UpstreamRejected) => {
            conversation.revert();
            uncounted_reply(REJECTED_REPLY)
        },
        Ok(Outcome::ContentFiltered) => {
            conversation.revert();
            uncounted_reply(FILTERED_REPLY)
        },
        Ok(Outcome::UpstreamError { message }) => {
            conversation.revert();
            Reply { text: replace_all(message.as_str(), api_key, KEY_PLACEHOLDER), tokens: ABSENT }
        },
        Err(_) => {
            conversation.revert();
            uncounted_reply(MALFORMED_REPLY)
        },
    }
}

/// Ends an exchange with the text of the service's answer.
pub fn resolve_exchange(conversation: &mut Conversation, body: &str, api_key: &str) -> (reply:
    Reply)
    ensures
        final(conversation)@.policy == old(conversation)@.policy,
        final(conversation)@.turns == turns_after(
            old(conversation)@.turns,
            outcome_in(response_in(parsed_json(body@))),
        ),
        reply@ == reply_to(outcome_in(response_in(parsed_json(body@))), api_key@),
{
    settle_exchange(conversation, interpret(body), api_key)
}

/// The status text that shows a token count.
pub open spec fn status_text(tokens: int) -> Seq<char> {
    STATUS_LABEL@ + decimal(tokens)
}

/// What is sent to the channel, as contracts see it.
pub struct EmissionView {
    pub chunks: Seq<Seq<char>>,
    pub status: Option<Seq<char>>,
}

/// What is sent to the channel for one reply: the messages, in order, and
/// the new status text where the status changes.
#[derive(Clone, Debug, PartialEq, Eq)]
pub struct Emission {
    pub chunks: Vec<String>,
    pub status: Option<String>,
}

impl View for Emission {
    type V = EmissionView;

    open spec fn view(&self) -> EmissionView {
        EmissionView {
            chunks: self.chunks.deep_view(),
            status: match self.status {
                Some(text) => Some(text@),
                None => None,
            },
        }
    }
}

/// The emission for a reply: its text in segments, and a status only where
/// tokens were counted.
pub open spec fn emitted(reply: ReplyView) -> EmissionView {
    EmissionView {
        chunks: chunks(reply.text, MAX_MESSAGE_LEN as nat),
        status: if reply.tokens != ABSENT {
            Some(status_text(reply.tokens as int))
        } else {
            None
        },
    }
}

/// Writes the status text that shows `tokens`.
pub fn status_line(tokens: i32) -> (text: String)
    ensures
        text@ == status_text(tokens as int),
{
    let mut text = STATUS_LABEL.to_owned();
    push_signed_decimal(&mut text, tokens);
    text
}

/// Prepares a reply for the channel.
pub fn emit(reply: &Reply) -> (emission: Emission)
    ensures
        emission@ == emitted(reply@),
{
    let chunks = split_string(&reply.text);
    let status = if reply.tokens != ABSENT {
        Some(status_line(reply.tokens))
    } else {
        None
    };
    Emission { chunks, status }
}

/// Clears the conversation on the privileged user's command and prepares the
/// confirmation: one message, and the status back at zero tokens.
pub fn reset_exchange(conversation: &mut Conversation) -> (emission: Emission)
    ensures
        final(conversation)@.policy == old(conversation)@.policy,
        final(conversation)@.turns == Seq::<Turn>::empty(),
        emission@ == (EmissionView {
            chunks: seq![RESET_REPLY@],
            status: Some(status_text(0)),
        }),
{
    conversation.reset_conversation();
    let mut chunks: Vec<String> = Vec::new();
    chunks.push(RESET_REPLY.to_owned());
    let emission = Emission { chunks, status: Some(status_line(0)) };
    assert(emission@.chunks =~= seq![RESET_REPLY@]);
    emission
}

/// The turns after a successful exchange in which the user said `user` and
/// the model answered `model`.
pub open spec fn exchanged(turns: Seq<Turn>, user: Seq<char>, model: Seq<char>) -> Seq<Turn> {
    turns_after(
        turns.push(user_turn(user)),
        Some(OutcomeView::Success { text: model, tokens: ABSENT }),
    )
}

/// The turns after the successful exchanges `exchanges`, oldest first, each
/// the user's text and the model's answer.
pub open spec fn after_exchanges(turns: Seq<Turn>, exchanges: Seq<(Seq<char>, Seq<char>)>) -> Seq<
    Turn,
>
    decreases exchanges.len(),
{
    if exchanges.len() == 0 {
        turns
    } else {
        exchanged(
            after_exchanges(turns, exchanges.drop_last()),
            exchanges.last().0,
            exchanges.last().1,
        )
    }
}

/// Every turn there has been: those of `turns`, then those of `exchanges`.
pub open spec fn transcript(turns: Seq<Turn>, exchanges: Seq<(Seq<char>, Seq<char>)>) -> Seq<Turn>
    decreases exchanges.len(),
{
    if exchanges.len() == 0 {
        turns
    } else {
        transcript(turns, exchanges.drop_last()).push(user_turn(exchanges.last().0)).push(
            model_turn(exchanges.last().1),
        )
    }
}

/// An exchange that does not succeed leaves the history as it was before
/// the user's turn was appended, whether the round trip failed or the answer
/// was malformed, rejected, filtered or an error.
pub proof fn lemma_failed_exchange_restores(
    turns: Seq<Turn>,
    text: Seq<char>,
    outcome: Option<OutcomeView>,
)
    requires
        !(outcome matches Some(OutcomeView::Success { .. })),
    ensures
        reverted(turns.push(user_turn(text))) == turns,
        turns_after(turns.push(user_turn(text)), outcome) == turns,
{
    assert(turns.push(user_turn(text)).drop_last() == turns);
}

/// After any number of successful exchanges the history holds the most
/// recent turns of all there have been, in their order; it holds no more
/// than `MAX_TURNS` of them if it did not at the start, and after the first
/// exchange fewer than `MAX_TURNS`: all there have been, or `MAX_TURNS - 1`.
pub proof fn lemma_history_bounded(turns: Seq<Turn>, exchanges: Seq<(Seq<char>, Seq<char>)>)
    ensures
        most_recent(transcript(turns, exchanges), after_exchanges(turns, exchanges)),
        turns.len() <= MAX_TURNS ==> after_exchanges(turns, exchanges).len() <= MAX_TURNS,
        exchanges.len() > 0 ==> after_exchanges(turns, exchanges).len() == vstd::math::min(
            transcript(turns, exchanges).len() as int,
            MAX_TURNS - 1,
        ),
    decreases exchanges.len(),
{
    if exchanges.len() == 0 {
        assert(turns.skip(0) == turns);
    } else {
        let earlier = exchanges.drop_last();
        lemma_history_bounded(turns, earlier);
        let kept = after_exchanges(turns, earlier);
        let all = transcript(turns, earlier);
        let user = user_turn(exchanges.last().0);
        let model = model_turn(exchanges.last().1);
        let grown = kept.push(user).push(model);
        lemma_truncated_keeps_most_recent(grown);
        assert(grown == all.push(user).push(model).skip(all.len() - kept.len()));
        let now = truncated(grown);
        assert(now == all.push(user).push(model).skip(all.len() + 2 - now.len()));
    }
}

} // verus!
