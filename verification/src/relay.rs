//! The relay as a state machine: what it does next, given what just happened.
//!
//! The relay itself performs no input or output. Its driver hands it one
//! event at a time and carries out the action that comes back: fetching an
//! attachment, sending a request, or sending messages to the channel. Between
//! a message and the reply to it the relay is busy; it is idle again as soon
//! as it has given the reply, whatever went wrong on the way.

use crate::conversation::{Conversation, ConversationView, MAX_TURNS};
use crate::dispatch::{
    AttachmentError,
    Dispatch,
    DispatchView,
    InboundMessage,
    InboundView,
    base64_text,
    dispatch,
    dispatched,
    encode_attachment,
};
use crate::exchange::{
    Emission,
    EmissionView,
    RESET_REPLY,
    Reply,
    SERIALIZATION_FAILED,
    TransportError,
    begin_exchange,
    emit,
    emitted,
    fail_exchange,
    outcome_in,
    reply_to,
    reset_exchange,
    resolve_exchange,
    status_text,
    turns_after,
    uncounted,
};
use crate::json::parsed_json;
use crate::model::{ABSENT, InlineData, InlineDataView, Turn, user_turn};
use crate::request::request_json;
use crate::response::response_in;
use vstd::prelude::*;

verus! {

/// Where the relay stands, as contracts see it.
pub enum PhaseView {
    Idle,
    Fetching { text: Seq<char>, content_type: Seq<char> },
    AwaitingRemote,
}

/// Where the relay stands between two events.
#[derive(Clone, Debug, PartialEq, Eq)]
pub enum Phase {
    /// Ready for the next message.
    Idle,
    /// Waiting for the bytes of the attachment that came with `text`.
    Fetching { text: String, content_type: String },
    /// Waiting for the service's answer; the user's turn is in the history
    /// provisionally.
    AwaitingRemote,
}

impl View for Phase {
    type V = PhaseView;

    open spec fn view(&self) -> PhaseView {
        match self {
            Phase::Idle => PhaseView::Idle,
            Phase::Fetching { text, content_type } => PhaseView::Fetching {
                text: text@,
                content_type: content_type@,
            },
            Phase::AwaitingRemote => PhaseView::AwaitingRemote,
        }
    }
}

/// What just happened, as contracts see it.
pub enum EventView {
    Message(InboundView),
    Fetched(Seq<u8>),
    FetchFailed,
    Answered(Seq<char>),
    TransportFailed(TransportError),
}

/// What just happened.
#[derive(Clone, Debug, PartialEq, Eq)]
pub enum Event {
    /// A message arrived from the gateway.
    Message(InboundMessage),
    /// The attachment was fetched: its bytes.
    Fetched(Vec<u8>),
    /// The attachment could not be fetched.
    FetchFailed,
    /// The service answered: the text of its answer.
    Answered(String),
    /// The round trip to the service failed.
    TransportFailed(TransportError),
}

impl View for Event {
    type V = EventView;

    open spec fn view(&self) -> EventView {
        match self {
            Event::Message(message) => EventView::Message(message@),
            Event::Fetched(bytes) => EventView::Fetched(bytes@),
            Event::FetchFailed => EventView::FetchFailed,
            Event::Answered(body) => EventView::Answered(body@),
            Event::TransportFailed(error) => EventView::TransportFailed(*error),
        }
    }
}

/// What the driver is to do, as contracts see it.
pub enum ActionView {
    Nothing,
    Fetch,
    Send { body: Seq<char> },
    Reply(EmissionView),
    Announce(EmissionView),
}

/// What the driver is to do next.
#[derive(Clone, Debug, PartialEq, Eq)]
pub enum Action {
    /// Nothing; the event called for no action.
    Nothing,
    /// Fetch the first attachment of the message, then report `Fetched` or
    /// `FetchFailed`.
    Fetch,
    /// Send `body` to the service, then report `Answered` or
    /// `TransportFailed`.
    Send { body: String },
    /// Send the messages as replies to the message, and show the status.
    Reply(Emission),
    /// Send the messages to the channel, and show the status.
    Announce(Emission),
}

impl View for Action {
    type V = ActionView;

    open spec fn view(&self) -> ActionView {
        match self {
            Action::Nothing => ActionView::Nothing,
            Action::Fetch => ActionView::Fetch,
            Action::Send { body } => ActionView::Send { body: body@ },
            Action::Reply(emission) => ActionView::Reply(emission@),
            Action::Announce(emission) => ActionView::Announce(emission@),
        }
    }
}

/// The relay as contracts see it.
pub struct RelayView {
    pub bot_id: u64,
    pub api_key: Seq<char>,
    pub conversation: ConversationView,
    pub phase: PhaseView,
}

/// The relay: who it is, the key it must never show, the conversation it
/// keeps, and where it stands.
#[derive(Clone, Debug, PartialEq, Eq)]
pub struct Relay {
    pub bot_id: u64,
    pub api_key: String,
    pub conversation: Conversation,
    pub phase: Phase,
}

impl View for Relay {
    type V = RelayView;

    open spec fn view(&self) -> RelayView {
        RelayView {
            bot_id: self.bot_id,
            api_key: self.api_key@,
            conversation: self.conversation@,
            phase: self.phase@,
        }
    }
}

impl RelayView {
    /// This relay, idle, with the given turns.
    pub open spec fn idle_with(self, turns: Seq<Turn>) -> RelayView {
        RelayView {
            conversation: ConversationView { turns, ..self.conversation },
            phase: PhaseView::Idle,
            ..self
        }
    }

    /// Whether the history is within its bound: no more than `MAX_TURNS`
    /// turns while an answer is awaited, fewer at any other time.
    pub open spec fn within_bound(self) -> bool {
        if self.phase is AwaitingRemote {
            self.conversation.turns.len() <= MAX_TURNS
        } else {
            self.conversation.turns.len() < MAX_TURNS
        }
    }

    /// This relay after the reply `text` was given without an exchange.
    pub open spec fn refused(self, text: Seq<char>) -> (RelayView, ActionView) {
        (self.idle_with(self.conversation.turns), ActionView::Reply(emitted(uncounted(text))))
    }

    /// This relay after an exchange was started for `text`: the user's turn
    /// is appended and the request sent, or, where the request cannot be
    /// written, nothing is changed and the user is told.
    pub open spec fn started(self, text: Seq<char>, image: Option<InlineDataView>) -> (
        RelayView,
        ActionView,
    ) {
        let turns = self.conversation.turns.push(user_turn(text));
        match request_json(ConversationView { turns, ..self.conversation }, text, image) {
            Some(body) => (
                RelayView { phase: PhaseView::AwaitingRemote, ..self.idle_with(turns) },
                ActionView::Send { body },
            ),
            None => self.refused(SERIALIZATION_FAILED@),
        }
    }

    /// This relay after `event`, and the action it asks for.
    pub open spec fn stepped(self, event: EventView) -> (RelayView, ActionView) {
        match (self.phase, event) {
            (PhaseView::Idle, EventView::Message(message)) => match dispatched(
                self.bot_id,
                message,
            ) {
                DispatchView::Ignore => (self, ActionView::Nothing),
                DispatchView::Reset => (
                    self.idle_with(Seq::empty()),
                    ActionView::Announce(
                        EmissionView { chunks: seq![RESET_REPLY@], status: Some(status_text(0)) },
                    ),
                ),
                DispatchView::Reject { error } => self.refused(error.spec_message()),
                DispatchView::Forward { text, image_type: None } => self.started(text, None),
                DispatchView::Forward { text, image_type: Some(content_type) } => (
                    RelayView { phase: PhaseView::Fetching { text, content_type }, ..self },
                    ActionView::Fetch,
                ),
            },
            (PhaseView::Fetching { text, content_type }, EventView::Fetched(bytes)) => self.started(
                text,
                Some(InlineDataView { data: base64_text(bytes), mimeType: content_type }),
            ),
            (PhaseView::Fetching { .. }, EventView::FetchFailed) => self.refused(
                AttachmentError::FetchFailed.spec_message(),
            ),
            (PhaseView::AwaitingRemote, EventView::Answered(body)) => {
                let outcome = outcome_in(response_in(parsed_json(body)));
                (
                    self.idle_with(turns_after(self.conversation.turns, outcome)),
                    ActionView::Reply(emitted(reply_to(outcome, self.api_key))),
                )
            },
            (PhaseView::AwaitingRemote, EventView::TransportFailed(error)) => (
                self.idle_with(crate::conversation::reverted(self.conversation.turns)),
                ActionView::Reply(emitted(uncounted(error.spec_message()))),
            ),
            _ => (self, ActionView::Nothing),
        }
    }
}

impl Relay {
    /// An idle relay with an empty conversation.
    pub fn new(bot_id: u64, api_key: String) -> (relay: Relay)
        ensures
            relay@.bot_id == bot_id,
            relay@.api_key == api_key@,
            relay@.conversation.turns == Seq::<Turn>::empty(),
            relay@.conversation.policy == crate::conversation::default_policy(),
            relay@.phase == PhaseView::Idle,
            relay@.within_bound(),
    {
        Relay { bot_id, api_key, conversation: Conversation::default(), phase: Phase::Idle }
    }

    fn refuse(&mut self, text: String) -> (action: Action)
        ensures
            (final(self)@, action@) == old(self)@.refused(text@),
    {
        self.phase = Phase::Idle;
        Action::Reply(emit(&Reply { text, tokens: ABSENT }))
    }

    fn start(&mut self, text: String, image: Option<InlineData>) -> (action: Action)
        ensures
            (final(self)@, action@) == old(self)@.started(
                text@,
                match image {
                    Some(picture) => Some(picture@),
                    None => None,
                },
            ),
    {
        let step = match &image {
            Some(picture) => begin_exchange(&mut self.conversation, text.as_str(), Some(picture)),
            None => begin_exchange(&mut self.conversation, text.as_str(), None),
        };
        match step {
            Ok(body) => {
                self.phase = Phase::AwaitingRemote;
                Action::Send { body }
            },
            Err(reply) => {
                self.phase = Phase::Idle;
                Action::Reply(emit(&reply))
            },
        }
    }

    /// Takes one event and says what to do next.
    ///
    /// An event that does not fit the phase (an answer that nothing waits
    /// for, a message while the relay is busy) changes nothing and asks for
    /// nothing.
    pub fn step(&mut self, event: Event) -> (action: Action)
        ensures
            (final(self)@, action@) == old(self)@.stepped(event@),
            old(self)@.within_bound() ==> final(self)@.within_bound(),
    {
        proof {
            if self@.within_bound() {
                lemma_step_keeps_bound(self@, event@);
            }
        }
        let mut phase = Phase::Idle;
        core::mem::swap(&mut self.phase, &mut phase);
        match (phase, event) {
            (Phase::Idle, Event::Message(message)) => {
                match dispatch(self.bot_id, &message) {
                    Dispatch::Ignore => Action::Nothing,
                    Dispatch::Reset => Action::Announce(reset_exchange(&mut self.conversation)),
                    Dispatch::Reject { error } => self.refuse(error.message()),
                    Dispatch::Forward { text, image_type: None } => self.start(text, None),
                    Dispatch::Forward { text, image_type: Some(content_type) } => {
                        self.phase = Phase::Fetching { text, content_type };
                        Action::Fetch
                    },
                }
            },
            (Phase::Fetching { text, content_type }, Event::Fetched(bytes)) => {
                let image = encode_attachment(&bytes, content_type);
                self.start(text, Some(image))
            },
            (Phase::Fetching { .. }, Event::FetchFailed) => self.refuse(
                AttachmentError::FetchFailed.message(),
            ),
            (Phase::AwaitingRemote, Event::Answered(body)) => {
                let reply = resolve_exchange(
                    &mut self.conversation,
                    body.as_str(),
                    self.api_key.as_str(),
                );
                Action::Reply(emit(&reply))
            },
            (Phase::AwaitingRemote, Event::TransportFailed(error)) => {
                let reply = fail_exchange(&mut self.conversation, error);
                Action::Reply(emit(&reply))
            },
            (phase, _) => {
                self.phase = phase;
                Action::Nothing
            },
        }
    }
}

/// Whatever the event, a step leaves the relay's identity, its key and the
/// safety policy as they were. A step that gives something to send to the
/// channel leaves the relay idle; one that asks for a request to be sent
/// leaves it waiting for the answer, with one more turn; one that asks for
/// an attachment leaves it waiting for the bytes, with the turns unchanged.
pub proof fn lemma_step_ends_where_it_says(relay: RelayView, event: EventView)
    ensures
        relay.stepped(event).0.bot_id == relay.bot_id,
        relay.stepped(event).0.api_key == relay.api_key,
        relay.stepped(event).0.conversation.policy == relay.conversation.policy,
        relay.stepped(event).1 is Reply || relay.stepped(event).1 is Announce ==> relay.stepped(
            event,
        ).0.phase is Idle,
        relay.stepped(event).1 is Send ==> relay.stepped(event).0.phase is AwaitingRemote
            && relay.stepped(event).0.conversation.turns.len() == relay.conversation.turns.len()
            + 1,
        relay.stepped(event).1 is Fetch ==> relay.stepped(event).0.phase is Fetching
            && relay.stepped(event).0.conversation.turns == relay.conversation.turns,
        relay.stepped(event).1 is Nothing ==> relay.stepped(event).0 == relay,
{
}

/// A relay whose history is within its bound keeps it there, whatever
/// happens: the history never holds more than `MAX_TURNS` turns.
pub proof fn lemma_step_keeps_bound(relay: RelayView, event: EventView)
    requires
        relay.within_bound(),
    ensures
        relay.stepped(event).0.within_bound(),
        relay.stepped(event).0.conversation.turns.len() <= MAX_TURNS,
{
}

/// An exchange that the relay starts and that does not succeed leaves the
/// relay idle with the history as it was before: nothing of the user's turn
/// stays, whether the round trip failed or the answer was malformed,
/// rejected, filtered or an error.
pub proof fn lemma_failed_exchange_leaves_no_turn(
    relay: RelayView,
    start: EventView,
    end: EventView,
)
    requires
        relay.stepped(start).1 is Send,
        end is TransportFailed || (end matches EventView::Answered(body) && !(outcome_in(
            response_in(parsed_json(body)),
        ) matches Some(crate::response::OutcomeView::Success { .. }))),
    ensures
        relay.stepped(start).0.stepped(end).0 == relay.idle_with(relay.conversation.turns),
        relay.stepped(start).0.stepped(end).1 is Reply,
{
    let busy = relay.stepped(start).0;
    assert(busy.conversation.turns.drop_last() == relay.conversation.turns);
}

} // verus!
