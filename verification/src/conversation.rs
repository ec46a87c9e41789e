//! The conversation store: the turns sent to the service as context, and the
//! safety policy sent with them.

use crate::model::{Contents, Labels, SafetySettings, Turn};
use crate::request::{SerializationError, serialized, text_request, text_request_json};
use vstd::prelude::*;

verus! {

/// A conversation is cut back to fewer turns than this after each successful
/// exchange.
pub const MAX_TURNS: usize = 20;

/// A conversation as contracts see it.
pub struct ConversationView {
    /// The turns, oldest first.
    pub turns: Seq<Turn>,
    /// The safety policy.
    pub policy: Seq<Labels>,
}

/// The rolling history shared by all users, with the safety policy.
#[derive(Clone, Debug, PartialEq, Eq)]
pub struct Conversation {
    /// The turns, oldest first.
    pub contents: Vec<Contents>,
    /// The safety policy; the operations below never change it.
    pub safety_settings: Vec<SafetySettings>,
}

impl View for Conversation {
    type V = ConversationView;

    open spec fn view(&self) -> ConversationView {
        ConversationView {
            turns: self.contents.deep_view(),
            policy: self.safety_settings.deep_view(),
        }
    }
}

/// `turns` without its last turn; an empty history stays empty.
pub open spec fn reverted(turns: Seq<Turn>) -> Seq<Turn> {
    if turns.len() > 0 {
        turns.drop_last()
    } else {
        turns
    }
}

/// `turns` cut back to its most recent `MAX_TURNS - 1` turns, where it holds
/// `MAX_TURNS` or more.
pub open spec fn truncated(turns: Seq<Turn>) -> Seq<Turn> {
    if turns.len() >= MAX_TURNS {
        turns.skip(turns.len() - (MAX_TURNS - 1))
    } else {
        turns
    }
}

/// The policy of a new conversation: nothing is blocked in any of the four
/// harm categories.
pub open spec fn default_policy() -> Seq<Labels> {
    seq![
        Labels { category: "HARM_CATEGORY_SEXUALLY_EXPLICIT"@, level: "BLOCK_NONE"@ },
        Labels { category: "HARM_CATEGORY_HATE_SPEECH"@, level: "BLOCK_NONE"@ },
        Labels { category: "HARM_CATEGORY_HARASSMENT"@, level: "BLOCK_NONE"@ },
        Labels { category: "HARM_CATEGORY_DANGEROUS_CONTENT"@, level: "BLOCK_NONE"@ },
    ]
}

fn block_none(category: &str) -> (setting: SafetySettings)
    ensures
        setting@ == (Labels { category: category@, level: "BLOCK_NONE"@ }),
{
    SafetySettings { category: category.to_owned(), threshold: "BLOCK_NONE".to_owned() }
}

impl Default for Conversation {
    /// An empty conversation with the default policy.
    fn default() -> (conversation: Self)
        ensures
            conversation@.turns == Seq::<Turn>::empty(),
            conversation@.policy == default_policy(),
    {
        let mut safety_settings: Vec<SafetySettings> = Vec::new();
        safety_settings.push(block_none("HARM_CATEGORY_SEXUALLY_EXPLICIT"));
        safety_settings.push(block_none("HARM_CATEGORY_HATE_SPEECH"));
        safety_settings.push(block_none("HARM_CATEGORY_HARASSMENT"));
        safety_settings.push(block_none("HARM_CATEGORY_DANGEROUS_CONTENT"));
        let conversation = Conversation { contents: Vec::new(), safety_settings };
        assert(conversation@.turns =~= Seq::<Turn>::empty());
        assert(conversation@.policy =~= default_policy());
        conversation
    }
}

impl Conversation {
    /// Appends `msg` as the newest turn.
    pub fn add_message(&mut self, msg: Contents)
        ensures
            final(self)@.turns == old(self)@.turns.push(msg@),
            final(self)@.policy == old(self)@.policy,
    {
        self.contents.push(msg);
        assert(final(self)@.turns =~= old(self)@.turns.push(msg@));
    }

    /// Removes the newest turn, if there is one.
    pub fn revert(&mut self)
        ensures
            final(self)@.turns == reverted(old(self)@.turns),
            final(self)@.policy == old(self)@.policy,
    {
        let _ = self.contents.pop();
        assert(final(self)@.turns =~= reverted(old(self)@.turns));
    }

    /// Writes the conversation as the body of a text-only request.
    pub fn get_json(&self) -> (body: Result<String, SerializationError>)
        ensures
            serialized(text_request_json(self@.turns, self@.policy), body),
    {
        text_request(&self.contents, &self.safety_settings)
    }

    /// Removes every turn.
    pub fn reset_conversation(&mut self)
        ensures
            final(self)@.turns == Seq::<Turn>::empty(),
            final(self)@.policy == old(self)@.policy,
    {
        self.contents.clear();
        assert(final(self)@.turns =~= Seq::<Turn>::empty());
    }

    /// Removes the oldest turns until fewer than `MAX_TURNS` are left.
    pub fn delete_old(&mut self)
        ensures
            final(self)@.turns == truncated(old(self)@.turns),
            final(self)@.policy == old(self)@.policy,
    {
        let ghost before = self@.turns;
        while self.contents.len() >= MAX_TURNS
            invariant
                self@.policy == old(self)@.policy,
                self@.turns.len() <= before.len(),
                before.len() >= MAX_TURNS ==> self@.turns.len() >= MAX_TURNS - 1,
                before.len() < MAX_TURNS ==> self@.turns.len() == before.len(),
                self@.turns == before.skip(before.len() - self@.turns.len()),
                before == old(self)@.turns,
            decreases self.contents.len(),
        {
            let ghost now = self@.turns;
            self.contents.remove(0);
            assert(self@.turns =~= now.skip(1));
            assert(now.skip(1) =~= before.skip(before.len() - self@.turns.len()));
        }
        assert(before.skip(0) == before);
    }
}

/// Taking back the newest turn of an empty history changes nothing, and
/// taking back a turn that was just appended gives the history before it.
pub proof fn lemma_revert_undoes_append(turns: Seq<Turn>, turn: Turn)
    ensures
        reverted(Seq::<Turn>::empty()) == Seq::<Turn>::empty(),
        reverted(turns.push(turn)) == turns,
{
    assert(turns.push(turn).drop_last() == turns);
}

/// Whether `kept` is the end of `all`: its most recent turns, in their order.
pub open spec fn most_recent(all: Seq<Turn>, kept: Seq<Turn>) -> bool {
    kept.len() <= all.len() && kept == all.skip(all.len() - kept.len())
}

/// Cutting a history back keeps its most recent turns, fewer than
/// `MAX_TURNS` of them, and all of them where there were fewer.
pub proof fn lemma_truncated_keeps_most_recent(turns: Seq<Turn>)
    ensures
        most_recent(turns, truncated(turns)),
        truncated(turns).len() < MAX_TURNS,
        truncated(turns).len() == vstd::math::min(turns.len() as int, MAX_TURNS - 1),
{
    assert(turns.skip(0) == turns);
}

} // verus!
