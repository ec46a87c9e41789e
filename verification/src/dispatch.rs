//! Deciding what to do with a message that arrives from the gateway.
//!
//! A message is for the bot when it mentions the bot or begins with the
//! prefix. The privileged user's reset command is recognised whether or not
//! it is addressed; the bot's own messages are never answered.

use crate::model::{InlineData, InlineDataView};
use crate::text::{
    decimal_digits,
    lemma_replaced_after_prefix,
    push_decimal,
    replace_all,
    replaced,
    same_text,
    starts_with,
};
use vstd::prelude::*;
use vstd::string::*;

verus! {

/// The one user who may reset the conversation.
pub const PRIVILEGED_USER: u64 = 202850246261211136;

/// The command that resets the conversation.
pub const RESET_COMMAND: &'static str = "!resetgemini";

/// The prefix that addresses a message to the bot without a mention.
pub const PREFIX: &'static str = "? ";

/// Why a message's attachment ends the turn before any exchange.
#[derive(Clone, Copy, Debug, PartialEq, Eq, Structural)]
pub enum AttachmentError {
    /// The gateway gave no content type for the attachment.
    MissingType,
    /// The attachment is of a type that is not supported.
    UnsupportedType,
    /// The attachment could not be fetched.
    FetchFailed,
}

impl AttachmentError {
    /// The text shown to the user.
    pub open spec fn spec_message(self) -> Seq<char> {
        match self {
            AttachmentError::MissingType => "Could not find content type of attachment"@,
            AttachmentError::UnsupportedType => "Unsupported attachment type"@,
            AttachmentError::FetchFailed => "Error downloading attachment"@,
        }
    }

    /// The text shown to the user.
    pub fn message(&self) -> (text: String)
        ensures
            text@ == self.spec_message(),
    {
        match self {
            AttachmentError::MissingType => "Could not find content type of attachment".to_owned(),
            AttachmentError::UnsupportedType => "Unsupported attachment type".to_owned(),
            AttachmentError::FetchFailed => "Error downloading attachment".to_owned(),
        }
    }
}

/// What the gateway tells of one attachment.
#[derive(Clone, Debug, PartialEq, Eq)]
pub struct AttachmentInfo {
    /// Its MIME type, where the gateway knows it.
    pub content_type: Option<String>,
}

impl View for AttachmentInfo {
    type V = Option<Seq<char>>;

    open spec fn view(&self) -> Option<Seq<char>> {
        match self.content_type {
            Some(name) => Some(name@),
            None => None,
        }
    }
}

impl DeepView for AttachmentInfo {
    type V = Option<Seq<char>>;

    open spec fn deep_view(&self) -> Option<Seq<char>> {
        self.view()
    }
}

/// A message as contracts see it.
pub struct InboundView {
    pub author_id: u64,
    pub text: Seq<char>,
    pub mentions: Seq<u64>,
    pub attachments: Seq<Option<Seq<char>>>,
}

/// A message that arrives from the gateway.
#[derive(Clone, Debug, PartialEq, Eq)]
pub struct InboundMessage {
    pub author_id: u64,
    pub text: String,
    /// The users that the message mentions.
    pub mentions: Vec<u64>,
    pub attachments: Vec<AttachmentInfo>,
}

impl View for InboundMessage {
    type V = InboundView;

    open spec fn view(&self) -> InboundView {
        InboundView {
            author_id: self.author_id,
            text: self.text@,
            mentions: self.mentions@,
            attachments: self.attachments.deep_view(),
        }
    }
}

/// What is done with a message, as contracts see it.
pub enum DispatchView {
    Ignore,
    Reset,
    Reject { error: AttachmentError },
    Forward { text: Seq<char>, image_type: Option<Seq<char>> },
}

/// What is done with a message.
#[derive(Clone, Debug, PartialEq, Eq)]
pub enum Dispatch {
    /// Nothing: the message is not for the bot.
    Ignore,
    /// The conversation is reset.
    Reset,
    /// The turn ends with this error as the reply; the conversation is not
    /// touched.
    Reject { error: AttachmentError },
    /// The text is forwarded to the service, together with the first
    /// attachment where `image_type` gives its type.
    Forward { text: String, image_type: Option<String> },
}

impl View for Dispatch {
    type V = DispatchView;

    open spec fn view(&self) -> DispatchView {
        match self {
            Dispatch::Ignore => DispatchView::Ignore,
            Dispatch::Reset => DispatchView::Reset,
            Dispatch::Reject { error } => DispatchView::Reject { error: *error },
            Dispatch::Forward { text, image_type } => DispatchView::Forward {
                text: text@,
                image_type: match image_type {
                    Some(name) => Some(name@),
                    None => None,
                },
            },
        }
    }
}

/// How a mention of the user `id` is written inside a message.
pub open spec fn mention_token(id: u64) -> Seq<char> {
    seq!['<', '@'] + decimal_digits(id as nat) + seq!['>']
}

/// Whether an image of this MIME type can be sent to the service.
pub open spec fn supported_image(content_type: Seq<char>) -> bool {
    content_type == "image/jpg"@ || content_type == "image/jpeg"@ || content_type == "image/png"@
}

/// The text that is forwarded for a message addressed to the bot `bot_id`:
/// the message without any mention of the bot, and without one leading space
/// or, where there is none and the message began with the prefix, without
/// the prefix.
pub open spec fn forwarded_text(text: Seq<char>, bot_id: u64) -> Seq<char> {
    let stripped = replaced(text, mention_token(bot_id), Seq::empty());
    if stripped.len() > 0 && stripped[0] == ' ' {
        stripped.skip(1)
    } else if PREFIX@.is_prefix_of(text) {
        stripped.skip(2)
    } else {
        stripped
    }
}

/// What is decided on the first attachment of a message whose text `text` is
/// forwarded.
pub open spec fn attachment_checked(text: Seq<char>, attachments: Seq<Option<Seq<char>>>)
    -> DispatchView {
    if attachments.len() == 0 {
        DispatchView::Forward { text, image_type: None }
    } else {
        match attachments[0] {
            None => DispatchView::Reject { error: AttachmentError::MissingType },
            Some(content_type) => if supported_image(content_type) {
                DispatchView::Forward { text, image_type: Some(content_type) }
            } else {
                DispatchView::Reject { error: AttachmentError::UnsupportedType }
            },
        }
    }
}

/// What the bot `bot_id` does with `message`.
pub open spec fn dispatched(bot_id: u64, message: InboundView) -> DispatchView {
    if message.author_id == bot_id {
        DispatchView::Ignore
    } else if message.author_id == PRIVILEGED_USER && message.text == RESET_COMMAND@ {
        DispatchView::Reset
    } else if message.mentions.contains(bot_id) || PREFIX@.is_prefix_of(message.text) {
        attachment_checked(forwarded_text(message.text, bot_id), message.attachments)
    } else {
        DispatchView::Ignore
    }
}

/// The base64 text of `bytes`, as `base64` writes it with its standard
/// alphabet and padding.
pub uninterp spec fn base64_text(bytes: Seq<u8>) -> Seq<char>;

/// `base64::encode`: the base64 text of the bytes. The contract only names
/// the result.
#[verifier::external_body]
#[allow(deprecated)]
fn base64_encode(bytes: &Vec<u8>) -> (text: String)
    ensures
        text@ == base64_text(bytes@),
{
    base64::encode(bytes)
}

/// Makes the image that goes into a request from the bytes of an
/// attachment and its MIME type.
pub fn encode_attachment(bytes: &Vec<u8>, content_type: String) -> (image: InlineData)
    ensures
        image@ == (InlineDataView { data: base64_text(bytes@), mimeType: content_type@ }),
{
    InlineData { data: base64_encode(bytes), mimeType: content_type }
}

/// Writes the mention of the user `id`.
pub fn write_mention(id: u64) -> (token: String)
    ensures
        token@ == mention_token(id),
{
    let mut token = String::new();
    token.push('<');
    token.push('@');
    push_decimal(&mut token, id);
    token.push('>');
    assert(token@ =~= mention_token(id));
    token
}

/// Whether `ids` holds `id`.
pub fn mentions_user(ids: &Vec<u64>, id: u64) -> (found: bool)
    ensures
        found == ids@.contains(id),
{
    let mut i: usize = 0;
    while i < ids.len()
        invariant
            i <= ids.len(),
            forall|k: int| 0 <= k < i ==> ids@[k] != id,
        decreases ids.len() - i,
    {
        if ids[i] == id {
            return true;
        }
        i += 1;
    }
    false
}

/// Whether an image of this MIME type can be sent to the service.
pub fn is_supported_image(content_type: &str) -> (supported: bool)
    ensures
        supported == supported_image(content_type@),
{
    same_text(content_type, "image/jpg") || same_text(content_type, "image/jpeg") || same_text(
        content_type,
        "image/png",
    )
}

/// Takes the address off a message for the bot `bot_id`.
pub fn strip_address(text: &str, bot_id: u64) -> (forwarded: String)
    ensures
        forwarded@ == forwarded_text(text@, bot_id),
{
    let token = write_mention(bot_id);
    let prefixed = starts_with(text, PREFIX);
    let stripped = replace_all(text, token.as_str(), "");
    proof {
        reveal_strlit("");
        assert(""@ =~= Seq::<char>::empty());
    }
    let len = stripped.as_str().unicode_len();
    if len > 0 && stripped.as_str().get_char(0) == ' ' {
        assert(stripped@.subrange(1, len as int) == stripped@.skip(1));
        stripped.as_str().substring_char(1, len).to_owned()
    } else if prefixed {
        proof {
            reveal_strlit("? ");
            let head = text@.take(2);
            let tail = text@.skip(2);
            assert(head =~= PREFIX@);
            assert(head + tail == text@);
            assert(!head.contains(mention_token(bot_id)[0]));
            lemma_replaced_after_prefix(head, tail, mention_token(bot_id), Seq::empty());
            assert(stripped@.len() >= 2);
        }
        assert(stripped@.subrange(2, len as int) == stripped@.skip(2));
        stripped.as_str().substring_char(2, len).to_owned()
    } else {
        stripped
    }
}

/// Decides on the first attachment of a message whose text `text` is
/// forwarded.
pub fn check_attachment(text: String, attachments: &Vec<AttachmentInfo>) -> (dispatch: Dispatch)
    ensures
        dispatch@ == attachment_checked(text@, attachments.deep_view()),
{
    if attachments.len() == 0 {
        return Dispatch::Forward { text, image_type: None };
    }
    assert(attachments.deep_view()[0] == attachments[0]@);
    match &attachments[0].content_type {
        None => Dispatch::Reject { error: AttachmentError::MissingType },
        Some(content_type) => {
            if is_supported_image(content_type.as_str()) {
                Dispatch::Forward { text, image_type: Some(content_type.clone()) }
            } else {
                Dispatch::Reject { error: AttachmentError::UnsupportedType }
            }
        },
    }
}

/// Decides what the bot `bot_id` does with `message`.
pub fn dispatch(bot_id: u64, message: &InboundMessage) -> (dispatch: Dispatch)
    ensures
        dispatch@ == dispatched(bot_id, message@),
{
    if message.author_id == bot_id {
        return Dispatch::Ignore;
    }
    if message.author_id == PRIVILEGED_USER && same_text(message.text.as_str(), RESET_COMMAND) {
        return Dispatch::Reset;
    }
    if mentions_user(&message.mentions, bot_id) || starts_with(message.text.as_str(), PREFIX) {
        let text = strip_address(message.text.as_str(), bot_id);
        check_attachment(text, &message.attachments)
    } else {
        Dispatch::Ignore
    }
}

} // verus!
