//! The data exchanged with the generative-language service: conversation turns,
//! the safety policy, and the parts of a reply.
//!
//! Field names are those of the service's JSON contract. Every type has a view
//! in which texts are sequences of characters; contracts are stated over views.

use vstd::prelude::*;

verus! {

/// Value of a numeric field that the reply did not carry.
pub const ABSENT: i32 = -1;

/// Who wrote a turn of the conversation.
#[derive(Clone, Copy, Debug, PartialEq, Eq, Structural)]
pub enum Role {
    User,
    Model,
}

/// Why the service stopped generating a candidate.
#[derive(Clone, Copy, Debug, PartialEq, Eq, Structural)]
pub enum FinishReason {
    /// The candidate is complete.
    Stop,
    /// The safety filter withheld the candidate.
    Safety,
    /// A reason this library does not tell apart.
    Other,
    /// The reply named no reason.
    Unset,
}

/// One piece of text.
#[derive(Clone, Debug, PartialEq, Eq)]
pub struct Parts {
    pub text: String,
}

impl View for Parts {
    type V = Seq<char>;

    open spec fn view(&self) -> Seq<char> {
        self.text@
    }
}

impl DeepView for Parts {
    type V = Seq<char>;

    open spec fn deep_view(&self) -> Seq<char> {
        self.text@
    }
}

impl Default for Parts {
    fn default() -> (parts: Self)
        ensures
            parts@ == Seq::<char>::empty(),
    {
        Parts { text: String::new() }
    }
}

/// A turn as contracts see it.
pub struct Turn {
    pub role: Role,
    pub text: Seq<char>,
}

/// One turn of the conversation.
#[derive(Clone, Debug, PartialEq, Eq)]
pub struct Contents {
    pub role: Role,
    pub parts: Parts,
}

impl View for Contents {
    type V = Turn;

    open spec fn view(&self) -> Turn {
        Turn { role: self.role, text: self.parts.text@ }
    }
}

impl DeepView for Contents {
    type V = Turn;

    open spec fn deep_view(&self) -> Turn {
        self.view()
    }
}

impl Default for Contents {
    fn default() -> (turn: Self)
        ensures
            turn@ == (Turn { role: Role::User, text: Seq::empty() }),
    {
        Contents { role: Role::User, parts: Parts::default() }
    }
}

impl Contents {
    /// A turn written by the user.
    pub fn user(text: String) -> (turn: Self)
        ensures
            turn@ == user_turn(text@),
    {
        Contents { role: Role::User, parts: Parts { text } }
    }

    /// A turn written by the model.
    pub fn model(text: String) -> (turn: Self)
        ensures
            turn@ == model_turn(text@),
    {
        Contents { role: Role::Model, parts: Parts { text } }
    }
}

/// The user's turn with the given text.
pub open spec fn user_turn(text: Seq<char>) -> Turn {
    Turn { role: Role::User, text }
}

/// The model's turn with the given text.
pub open spec fn model_turn(text: Seq<char>) -> Turn {
    Turn { role: Role::Model, text }
}

/// A pair of labels, as contracts see one entry of the safety policy or one
/// safety rating.
pub struct Labels {
    pub category: Seq<char>,
    pub level: Seq<char>,
}

/// One entry of the safety policy: the blocking threshold of a harm category.
#[derive(Clone, Debug, PartialEq, Eq)]
pub struct SafetySettings {
    pub category: String,
    pub threshold: String,
}

impl View for SafetySettings {
    type V = Labels;

    open spec fn view(&self) -> Labels {
        Labels { category: self.category@, level: self.threshold@ }
    }
}

impl DeepView for SafetySettings {
    type V = Labels;

    open spec fn deep_view(&self) -> Labels {
        self.view()
    }
}

impl Default for SafetySettings {
    fn default() -> (settings: Self)
        ensures
            settings@ == default_labels(),
    {
        SafetySettings { category: String::new(), threshold: String::new() }
    }
}

/// How likely the service judged a candidate to fall into a harm category.
#[derive(Clone, Debug, PartialEq, Eq)]
pub struct SafetyRatings {
    pub category: String,
    pub probability: String,
}

impl View for SafetyRatings {
    type V = Labels;

    open spec fn view(&self) -> Labels {
        Labels { category: self.category@, level: self.probability@ }
    }
}

impl DeepView for SafetyRatings {
    type V = Labels;

    open spec fn deep_view(&self) -> Labels {
        self.view()
    }
}

impl Default for SafetyRatings {
    fn default() -> (rating: Self)
        ensures
            rating@ == default_labels(),
    {
        SafetyRatings { category: String::new(), probability: String::new() }
    }
}

/// The content of a candidate as contracts see it.
pub struct ContentView {
    pub role: Seq<char>,
    pub parts: Seq<Seq<char>>,
}

/// What a candidate says, and in which role.
#[derive(Clone, Debug, PartialEq, Eq)]
pub struct Content {
    pub role: String,
    pub parts: Vec<Parts>,
}

impl View for Content {
    type V = ContentView;

    open spec fn view(&self) -> ContentView {
        ContentView { role: self.role@, parts: self.parts.deep_view() }
    }
}

impl Default for Content {
    fn default() -> (content: Self)
        ensures
            content@ == default_content(),
    {
        let mut parts: Vec<Parts> = Vec::new();
        parts.push(Parts::default());
        let content = Content { role: String::new(), parts };
        assert(content@.parts =~= default_content().parts);
        content
    }
}

/// A content without role, holding one empty part.
pub open spec fn default_content() -> ContentView {
    ContentView { role: Seq::empty(), parts: seq![Seq::empty()] }
}

impl ContentView {
    /// The text that a reply relays: that of the first part, or nothing.
    pub open spec fn text(self) -> Seq<char> {
        if self.parts.len() > 0 {
            self.parts[0]
        } else {
            Seq::empty()
        }
    }
}

/// A candidate as contracts see it.
#[allow(non_snake_case)]
pub struct CandidateView {
    pub content: ContentView,
    pub finishReason: FinishReason,
    pub index: i32,
    pub safetyRatings: Seq<Labels>,
}

/// One answer that the service proposes.
#[allow(non_snake_case)]
#[derive(Clone, Debug, PartialEq, Eq)]
pub struct Candidates {
    pub content: Content,
    pub finishReason: FinishReason,
    pub index: i32,
    pub safetyRatings: Vec<SafetyRatings>,
}

impl View for Candidates {
    type V = CandidateView;

    open spec fn view(&self) -> CandidateView {
        CandidateView {
            content: self.content@,
            finishReason: self.finishReason,
            index: self.index,
            safetyRatings: self.safetyRatings.deep_view(),
        }
    }
}

impl DeepView for Candidates {
    type V = CandidateView;

    open spec fn deep_view(&self) -> CandidateView {
        self.view()
    }
}

/// A safety rating that names nothing.
pub open spec fn default_labels() -> Labels {
    Labels { category: Seq::empty(), level: Seq::empty() }
}

/// A candidate of which the reply said nothing: default content, no finish
/// reason, no index, four empty ratings.
pub open spec fn default_candidate() -> CandidateView {
    CandidateView {
        content: default_content(),
        finishReason: FinishReason::Unset,
        index: ABSENT,
        safetyRatings: seq![default_labels(), default_labels(), default_labels(), default_labels()],
    }
}

/// Four safety ratings that name nothing.
pub fn default_ratings() -> (ratings: Vec<SafetyRatings>)
    ensures
        ratings.deep_view() == seq![
            default_labels(),
            default_labels(),
            default_labels(),
            default_labels(),
        ],
{
    let mut ratings: Vec<SafetyRatings> = Vec::new();
    ratings.push(SafetyRatings::default());
    ratings.push(SafetyRatings::default());
    ratings.push(SafetyRatings::default());
    ratings.push(SafetyRatings::default());
    assert(ratings.deep_view() =~= seq![
        default_labels(),
        default_labels(),
        default_labels(),
        default_labels(),
    ]);
    ratings
}

impl Default for Candidates {
    fn default() -> (candidate: Self)
        ensures
            candidate@ == default_candidate(),
    {
        Candidates {
            content: Content::default(),
            finishReason: FinishReason::Unset,
            index: ABSENT,
            safetyRatings: default_ratings(),
        }
    }
}

/// Token counts of one exchange; `ABSENT` where the reply gave none.
#[allow(non_snake_case)]
#[derive(Clone, Copy, Debug, PartialEq, Eq, Structural)]
pub struct UsageMetadata {
    pub promptTokenCount: i32,
    pub candidatesTokenCount: i32,
    pub totalTokenCount: i32,
}

impl Default for UsageMetadata {
    fn default() -> (usage: Self)
        ensures
            usage == default_usage(),
    {
        UsageMetadata {
            promptTokenCount: ABSENT,
            candidatesTokenCount: ABSENT,
            totalTokenCount: ABSENT,
        }
    }
}

/// Token counts of a reply that gave none.
pub open spec fn default_usage() -> UsageMetadata {
    UsageMetadata {
        promptTokenCount: ABSENT,
        candidatesTokenCount: ABSENT,
        totalTokenCount: ABSENT,
    }
}

/// The service's error report as contracts see it.
pub struct ErrorView {
    pub code: i32,
    pub message: Seq<char>,
    pub status: Seq<char>,
}

/// The error that the service reports in place of candidates.
#[derive(Clone, Debug, PartialEq, Eq)]
pub struct Error {
    pub code: i32,
    pub message: String,
    pub status: String,
}

impl View for Error {
    type V = ErrorView;

    open spec fn view(&self) -> ErrorView {
        ErrorView { code: self.code, message: self.message@, status: self.status@ }
    }
}

/// The error report of a reply that carried none.
pub open spec fn default_error() -> ErrorView {
    ErrorView { code: ABSENT, message: "Unknown error"@, status: Seq::empty() }
}

impl Default for Error {
    fn default() -> (error: Self)
        ensures
            error@ == default_error(),
    {
        Error { code: ABSENT, message: "Unknown error".to_owned(), status: String::new() }
    }
}

/// A reply as contracts see it.
#[allow(non_snake_case)]
pub struct ResponseView {
    pub candidates: Seq<CandidateView>,
    pub usageMetadata: UsageMetadata,
    pub error: ErrorView,
}

/// One reply of the service.
#[allow(non_snake_case)]
#[derive(Clone, Debug, PartialEq, Eq)]
pub struct Response {
    pub candidates: Vec<Candidates>,
    pub usageMetadata: UsageMetadata,
    pub error: Error,
}

impl View for Response {
    type V = ResponseView;

    open spec fn view(&self) -> ResponseView {
        ResponseView {
            candidates: self.candidates.deep_view(),
            usageMetadata: self.usageMetadata,
            error: self.error@,
        }
    }
}

/// The reply that says nothing: one default candidate, no counts, no error.
pub open spec fn default_response() -> ResponseView {
    ResponseView {
        candidates: seq![default_candidate()],
        usageMetadata: default_usage(),
        error: default_error(),
    }
}

impl Default for Response {
    fn default() -> (response: Self)
        ensures
            response@ == default_response(),
    {
        let mut candidates: Vec<Candidates> = Vec::new();
        candidates.push(Candidates::default());
        let response = Response {
            candidates,
            usageMetadata: UsageMetadata::default(),
            error: Error::default(),
        };
        assert(response@.candidates =~= default_response().candidates);
        response
    }
}

/// An image as contracts see it.
#[allow(non_snake_case)]
pub struct InlineDataView {
    pub data: Seq<char>,
    pub mimeType: Seq<char>,
}

/// An image carried inside a request: its base64 text and its MIME type.
#[allow(non_snake_case)]
#[derive(Clone, Debug, PartialEq, Eq)]
pub struct InlineData {
    pub data: String,
    pub mimeType: String,
}

impl View for InlineData {
    type V = InlineDataView;

    open spec fn view(&self) -> InlineDataView {
        InlineDataView { data: self.data@, mimeType: self.mimeType@ }
    }
}

impl Default for InlineData {
    fn default() -> (image: Self)
        ensures
            image@ == (InlineDataView { data: Seq::empty(), mimeType: Seq::empty() }),
    {
        InlineData { data: String::new(), mimeType: String::new() }
    }
}

/// A stored file as contracts see it.
#[allow(non_snake_case)]
pub struct FileDataView {
    pub mimeType: Seq<char>,
    pub fileUri: Seq<char>,
}

/// A file that the service holds, named by its address.
#[allow(non_snake_case)]
#[derive(Clone, Debug, PartialEq, Eq)]
pub struct FileData {
    pub mimeType: String,
    pub fileUri: String,
}

impl View for FileData {
    type V = FileDataView;

    open spec fn view(&self) -> FileDataView {
        FileDataView { mimeType: self.mimeType@, fileUri: self.fileUri@ }
    }
}

impl Default for FileData {
    fn default() -> (file: Self)
        ensures
            file@ == (FileDataView { mimeType: Seq::empty(), fileUri: Seq::empty() }),
    {
        FileData { mimeType: String::new(), fileUri: String::new() }
    }
}

/// The service's judgement of a prompt as contracts see it.
#[allow(non_snake_case)]
pub struct PromptFeedbackView {
    pub blockReason: Seq<char>,
    pub safetyRatings: Seq<Labels>,
}

/// The service's judgement of a prompt: why it was blocked, and its ratings.
#[allow(non_snake_case)]
#[derive(Clone, Debug, PartialEq, Eq)]
pub struct PromptFeedback {
    pub blockReason: String,
    pub safetyRatings: Vec<SafetyRatings>,
}

impl View for PromptFeedback {
    type V = PromptFeedbackView;

    open spec fn view(&self) -> PromptFeedbackView {
        PromptFeedbackView {
            blockReason: self.blockReason@,
            safetyRatings: self.safetyRatings.deep_view(),
        }
    }
}

impl Default for PromptFeedback {
    fn default() -> (feedback: Self)
        ensures
            feedback@ == (PromptFeedbackView {
                blockReason: Seq::empty(),
                safetyRatings: seq![
                    default_labels(),
                    default_labels(),
                    default_labels(),
                    default_labels(),
                ],
            }),
    {
        PromptFeedback { blockReason: String::new(), safetyRatings: default_ratings() }
    }
}

} // verus!
