//! The provider's wire shape: what a request carries and what a response holds.

use crate::ai_model::{ChatMessage, MessageView, MODEL_ROLE, USER_ROLE};
use vstd::prelude::*;

verus! {

/// One text part of a turn on the wire.
#[derive(Debug, PartialEq, Eq)]
pub struct GeminiPart {
    pub text: String,
}

impl View for GeminiPart {
    type V = Seq<char>;

    open spec fn view(&self) -> Seq<char> {
        self.text@
    }
}

impl DeepView for GeminiPart {
    type V = Seq<char>;

    open spec fn deep_view(&self) -> Seq<char> {
        self@
    }
}

/// One turn on the wire: who wrote it, and its parts.
#[derive(Debug, PartialEq, Eq)]
pub struct GeminiContent {
    pub role: String,
    pub parts: Vec<GeminiPart>,
}

/// Mathematical value of a [`GeminiContent`].
pub struct ContentView {
    pub role: Seq<char>,
    pub parts: Seq<Seq<char>>,
}

impl View for GeminiContent {
    type V = ContentView;

    open spec fn view(&self) -> ContentView {
        ContentView { role: self.role@, parts: self.parts.deep_view() }
    }
}

impl DeepView for GeminiContent {
    type V = ContentView;

    open spec fn deep_view(&self) -> ContentView {
        self@
    }
}

/// Body of one call to the provider: the turns of the conversation, oldest first.
#[derive(Debug, PartialEq, Eq)]
pub struct GeminiRequest {
    pub contents: Vec<GeminiContent>,
}

impl View for GeminiRequest {
    type V = Seq<ContentView>;

    open spec fn view(&self) -> Seq<ContentView> {
        self.contents.deep_view()
    }
}

/// The role under which the provider knows the writer of a turn labelled `role`: the
/// label of the person chatting stays, every other label becomes that of the model.
pub open spec fn wire_role(role: Seq<char>) -> Seq<char> {
    if role == USER_ROLE@ {
        USER_ROLE@
    } else {
        MODEL_ROLE@
    }
}

/// A single-part turn on the wire.
pub open spec fn single_part(role: Seq<char>, text: Seq<char>) -> ContentView {
    ContentView { role, parts: seq![text] }
}

/// Wire form of one message.
pub open spec fn wire_content(message: MessageView) -> ContentView {
    single_part(wire_role(message.role), message.content)
}

/// Wire form of a history: the wire form of each message, in the same order.
pub open spec fn wire_history(history: Seq<MessageView>) -> Seq<ContentView> {
    history.map_values(|message: MessageView| wire_content(message))
}

/// The text that a turn on the wire carries: that of its first part, nothing where it has
/// no part.
pub open spec fn content_text(content: ContentView) -> Seq<char> {
    if content.parts.len() > 0 {
        content.parts[0]
    } else {
        Seq::empty()
    }
}

/// The message that a turn on the wire stands for.
pub open spec fn message_of(content: ContentView) -> MessageView {
    MessageView { role: content.role, content: content_text(content) }
}

/// The history that a list of turns on the wire stands for.
pub open spec fn history_of(contents: Seq<ContentView>) -> Seq<MessageView> {
    contents.map_values(|content: ContentView| message_of(content))
}

/// The two roles that the provider knows are different labels.
pub proof fn lemma_roles_differ()
    ensures
        USER_ROLE@ != MODEL_ROLE@,
{
    reveal_strlit("user");
    reveal_strlit("model");
    assert(USER_ROLE@.len() != MODEL_ROLE@.len());
}

/// Role normalisation is total and lands on one of the two roles that the provider knows:
/// the label of the person chatting is kept, and every other label becomes that of the
/// model.
pub proof fn lemma_wire_role_is_known(role: Seq<char>)
    ensures
        wire_role(role) == USER_ROLE@ || wire_role(role) == MODEL_ROLE@,
        wire_role(role) == USER_ROLE@ <==> role == USER_ROLE@,
        wire_role(role) == MODEL_ROLE@ <==> role != USER_ROLE@,
{
    lemma_roles_differ();
}

/// Normalising a role twice changes nothing more than normalising it once.
pub proof fn lemma_wire_role_idempotent(role: Seq<char>)
    ensures
        wire_role(wire_role(role)) == wire_role(role),
{
    lemma_roles_differ();
}

/// In the wire form of any history, turn for turn: the role is one of the two that the
/// provider knows, it is that of the person chatting exactly where the message had that
/// label, and the single part carries the message's content.
pub proof fn lemma_wire_history_roles(history: Seq<MessageView>)
    ensures
        wire_history(history).len() == history.len(),
        forall|i: int|
            0 <= i < history.len() ==> {
                let content = #[trigger] wire_history(history)[i];
                &&& content.role == USER_ROLE@ || content.role == MODEL_ROLE@
                &&& content.role == USER_ROLE@ <==> history[i].role == USER_ROLE@
                &&& content.role == MODEL_ROLE@ <==> history[i].role != USER_ROLE@
                &&& content.parts == seq![history[i].content]
            },
{
    lemma_roles_differ();
}

/// Appending a message to a history appends its wire form to the history's wire form.
pub proof fn lemma_wire_history_push(history: Seq<MessageView>, message: MessageView)
    ensures
        wire_history(history.push(message)) == wire_history(history).push(wire_content(message)),
{
    assert(wire_history(history.push(message)) =~= wire_history(history).push(
        wire_content(message),
    ));
}

/// A history that goes to the wire and back keeps its length, and each message keeps its
/// place and its content; only the role may change, to its normal form.
pub proof fn lemma_history_round_trip(history: Seq<MessageView>)
    ensures
        history_of(wire_history(history)).len() == history.len(),
        forall|i: int|
            0 <= i < history.len() ==> {
                let back = #[trigger] history_of(wire_history(history))[i];
                &&& back.content == history[i].content
                &&& back.role == wire_role(history[i].role)
            },
{
}

/// A history whose roles are already those that the provider knows comes back from the
/// wire unchanged.
pub proof fn lemma_normal_history_round_trip(history: Seq<MessageView>)
    requires
        forall|i: int|
            0 <= i < history.len() ==> (#[trigger] history[i]).role == USER_ROLE@
                || history[i].role == MODEL_ROLE@,
    ensures
        history_of(wire_history(history)) == history,
{
    lemma_history_round_trip(history);
    assert(history_of(wire_history(history)) =~= history);
}

/// One text part of a reply, as the provider sent it; the text may be missing.
#[derive(Debug, PartialEq, Eq)]
pub struct GeminiPartResponse {
    pub text: Option<String>,
}

impl View for GeminiPartResponse {
    type V = Option<Seq<char>>;

    open spec fn view(&self) -> Option<Seq<char>> {
        match self.text {
            Some(text) => Some(text@),
            None => None,
        }
    }
}

impl DeepView for GeminiPartResponse {
    type V = Option<Seq<char>>;

    open spec fn deep_view(&self) -> Option<Seq<char>> {
        self@
    }
}

/// The parts of one alternative reply.
#[derive(Debug, PartialEq, Eq)]
pub struct GeminiContentResponse {
    pub parts: Vec<GeminiPartResponse>,
}

/// One alternative reply of the provider.
#[derive(Debug, PartialEq, Eq)]
pub struct GeminiCandidate {
    pub content: GeminiContentResponse,
}

impl View for GeminiCandidate {
    type V = Seq<Option<Seq<char>>>;

    open spec fn view(&self) -> Seq<Option<Seq<char>>> {
        self.content.parts.deep_view()
    }
}

impl DeepView for GeminiCandidate {
    type V = Seq<Option<Seq<char>>>;

    open spec fn deep_view(&self) -> Seq<Option<Seq<char>>> {
        self@
    }
}

/// A parsed response of the provider: its alternative replies, best first. Its value is,
/// for each alternative, the texts of its parts.
#[derive(Debug, PartialEq, Eq)]
pub struct GeminiResponse {
    pub candidates: Vec<GeminiCandidate>,
}

impl View for GeminiResponse {
    type V = Seq<Seq<Option<Seq<char>>>>;

    open spec fn view(&self) -> Seq<Seq<Option<Seq<char>>>> {
        self.candidates.deep_view()
    }
}

/// The reply text of a response: the text of the first part of the first alternative,
/// where there is one.
pub open spec fn reply_text(response: Seq<Seq<Option<Seq<char>>>>) -> Option<Seq<char>> {
    if response.len() > 0 && response[0].len() > 0 {
        response[0][0]
    } else {
        None
    }
}

impl GeminiContent {
    /// A single-part turn by the writer labelled `role`, normalised for the wire.
    pub fn from_message(message: ChatMessage) -> (content: GeminiContent)
        ensures
            content@ == wire_content(message@),
    {
        let role = if message.role == String::from_str(USER_ROLE) {
            String::from_str(USER_ROLE)
        } else {
            String::from_str(MODEL_ROLE)
        };
        let mut parts: Vec<GeminiPart> = Vec::new();
        parts.push(GeminiPart { text: message.content });
        assert(parts.deep_view() =~= seq![message.content@]);
        GeminiContent { role, parts }
    }

    /// A single-part turn by the person chatting.
    pub fn user(text: String) -> (content: GeminiContent)
        ensures
            content@ == single_part(USER_ROLE@, text@),
    {
        let mut parts: Vec<GeminiPart> = Vec::new();
        parts.push(GeminiPart { text });
        assert(parts.deep_view() =~= seq![text@]);
        GeminiContent { role: String::from_str(USER_ROLE), parts }
    }

    /// The message that this turn stands for.
    pub fn to_message(&self) -> (message: ChatMessage)
        ensures
            message@ == message_of(self@),
    {
        let content = if self.parts.len() > 0 {
            self.parts[0].text.clone()
        } else {
            String::new()
        };
        ChatMessage { role: self.role.clone(), content }
    }
}

impl GeminiResponse {
    /// The reply text of this response, where it has one.
    pub fn first_text(&self) -> (text: Option<String>)
        ensures
            match text {
                Some(t) => reply_text(self@) == Some(t@),
                None => reply_text(self@) is None,
            },
    {
        if self.candidates.len() == 0 {
            return None;
        }
        let candidate = &self.candidates[0];
        if candidate.content.parts.len() == 0 {
            return None;
        }
        match &candidate.content.parts[0].text {
            Some(text) => Some(text.clone()),
            None => None,
        }
    }
}

} // verus!
