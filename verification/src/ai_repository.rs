//! The client of the generative-text provider: what it sends for a chat or a prompt, where
//! it sends it, and what it makes of the provider's answer.

use crate::ai_model::{ChatMessage, MessageView, USER_ROLE};
use crate::error::{text_result_view, AppError, ErrorView};
use crate::http_status::{status_line, HttpStatus};
use crate::wire::{
    history_of, message_of, reply_text, single_part, wire_content, wire_history, ContentView,
    GeminiContent, GeminiRequest, GeminiResponse,
};
use std::sync::Arc;
use vstd::prelude::*;

verus! {

/// A source of generated text. The service depends on this capability alone, so that a
/// provider, or a stand-in for one, can be put behind it.
pub trait AIRepository: Send + Sync {
    /// The model's reply to `message`, given the earlier turns in `history`.
    fn chat(&self, message: String, history: Vec<ChatMessage>) -> Result<String, AppError>;

    /// The model's text for `prompt`.
    fn generate(&self, prompt: String) -> Result<String, AppError>;
}

impl<R: AIRepository> AIRepository for Arc<R> {
    fn chat(&self, message: String, history: Vec<ChatMessage>) -> (reply: Result<
        String,
        AppError,
    >)
        ensures
            call_ensures(R::chat, (&**self, message, history), reply),
    {
        (**self).chat(message, history)
    }

    fn generate(&self, prompt: String) -> (reply: Result<String, AppError>)
        ensures
            call_ensures(R::generate, (&**self, prompt), reply),
    {
        (**self).generate(prompt)
    }
}

/// The model that is addressed where none is configured.
pub const DEFAULT_MODEL: &'static str = "gemini-2.0-flash-exp";

/// Where the provider's models live.
pub const ENDPOINT_BASE: &'static str = "https://generativelanguage.googleapis.com/v1beta/models/";

/// The action asked of a model, up to the key that authorises it.
pub const ENDPOINT_ACTION: &'static str = ":generateContent?key=";

/// Seconds after which a call to the provider is given up.
pub const REQUEST_TIMEOUT_SECS: u64 = 30;

/// Start of the diagnostic of a call that got no answer.
pub const CALL_FAILED_PREFIX: &'static str = "Failed to call Gemini API: ";

/// Start of the diagnostic of a call that the provider refused, up to the status.
pub const API_ERROR_PREFIX: &'static str = "Gemini API error (";

/// What stands between the status and the body in the diagnostic of a refused call.
pub const API_ERROR_INFIX: &'static str = "): ";

/// What stands for the body of a refusal that could not be read.
pub const UNKNOWN_ERROR_BODY: &'static str = "Unknown error";

/// Start of the diagnostic of an answer that could not be parsed.
pub const PARSE_FAILED_PREFIX: &'static str = "Failed to parse Gemini response: ";

/// Diagnostic of an answer that holds no reply text.
pub const NO_RESPONSE: &'static str = "No response from Gemini";

/// One call to the provider: where to post, how long to wait, and what to send.
#[derive(Debug, PartialEq, Eq)]
pub struct ApiCall {
    pub url: String,
    pub timeout_secs: u64,
    pub body: GeminiRequest,
}

/// Mathematical value of an [`ApiCall`].
pub struct CallView {
    pub url: Seq<char>,
    pub timeout_secs: u64,
    pub contents: Seq<ContentView>,
}

impl View for ApiCall {
    type V = CallView;

    open spec fn view(&self) -> CallView {
        CallView { url: self.url@, timeout_secs: self.timeout_secs, contents: self.body@ }
    }
}

/// How one call to the provider ended.
#[derive(Debug, PartialEq, Eq)]
pub enum ApiOutcome {
    /// No answer was obtained; the payload is the transport's diagnostic.
    Unreachable(String),
    /// The provider answered with a status that does not say success. `body` is the
    /// text that came with it, if it could be read.
    Refused { status: HttpStatus, body: Option<String> },
    /// The provider answered with success, but not in the expected shape; the payload
    /// is the parser's diagnostic.
    Malformed(String),
    /// The provider answered with success and in the expected shape.
    Answered(GeminiResponse),
}

/// Mathematical value of an [`ApiOutcome`].
pub enum OutcomeView {
    Unreachable(Seq<char>),
    Refused { status: u16, body: Option<Seq<char>> },
    Malformed(Seq<char>),
    Answered(Seq<Seq<Option<Seq<char>>>>),
}

impl View for ApiOutcome {
    type V = OutcomeView;

    open spec fn view(&self) -> OutcomeView {
        match self {
            ApiOutcome::Unreachable(detail) => OutcomeView::Unreachable(detail@),
            ApiOutcome::Refused { status, body } => OutcomeView::Refused {
                status: status@,
                body: match body {
                    Some(text) => Some(text@),
                    None => None,
                },
            },
            ApiOutcome::Malformed(detail) => OutcomeView::Malformed(detail@),
            ApiOutcome::Answered(response) => OutcomeView::Answered(response@),
        }
    }
}

/// Diagnostic of a refused call, from the line of its status and the body that came
/// with it: the status in parentheses, then the body, or a fixed phrase in its place
/// where it could not be read.
pub open spec fn refusal_diagnostic_text(status: Seq<char>, body: Option<Seq<char>>) -> Seq<char> {
    API_ERROR_PREFIX@ + status + API_ERROR_INFIX@ + match body {
        Some(text) => text,
        None => UNKNOWN_ERROR_BODY@,
    }
}

/// Diagnostic of a call that the provider refused with the status `status`.
pub open spec fn refusal_text(status: u16, body: Option<Seq<char>>) -> Seq<char> {
    refusal_diagnostic_text(status_line(status), body)
}

/// What a parsed answer yields: its reply text, or the error that says it has none.
pub open spec fn answer_reply(response: Seq<Seq<Option<Seq<char>>>>) -> Result<
    Seq<char>,
    ErrorView,
> {
    match reply_text(response) {
        Some(text) => Ok(text),
        None => Err(ErrorView::ExternalService(NO_RESPONSE@)),
    }
}

/// What a call yields: the reply text where the provider answered with one, and else an
/// external-service error whose diagnostic says how the call ended.
pub open spec fn outcome_reply(outcome: OutcomeView) -> Result<Seq<char>, ErrorView> {
    match outcome {
        OutcomeView::Unreachable(detail) => Err(
            ErrorView::ExternalService(CALL_FAILED_PREFIX@ + detail),
        ),
        OutcomeView::Refused { status, body } => Err(
            ErrorView::ExternalService(refusal_text(status, body)),
        ),
        OutcomeView::Malformed(detail) => Err(
            ErrorView::ExternalService(PARSE_FAILED_PREFIX@ + detail),
        ),
        OutcomeView::Answered(response) => answer_reply(response),
    }
}

/// A parsed answer yields a reply exactly when its first alternative has a first part and
/// that part has a text; an answer without alternatives, with a first alternative without
/// parts, or with a first part without text yields the error that says there is no
/// response.
pub proof fn lemma_answer_without_text(response: Seq<Seq<Option<Seq<char>>>>)
    ensures
        answer_reply(response) is Ok <==> response.len() > 0 && response[0].len() > 0
            && response[0][0] is Some,
        answer_reply(response) is Ok ==> answer_reply(response) == Ok::<Seq<char>, ErrorView>(
            response[0][0]->0,
        ),
        answer_reply(response) is Err ==> answer_reply(response) == Err::<Seq<char>, ErrorView>(
            ErrorView::ExternalService(NO_RESPONSE@),
        ),
{
}

/// Whatever way a call ends, the client's error, if there is one, is an external-service
/// error; and a call yields a reply only where the provider answered in the expected
/// shape.
pub proof fn lemma_client_errors_are_external(outcome: OutcomeView)
    ensures
        outcome_reply(outcome) matches Err(error) ==> error is ExternalService,
        outcome_reply(outcome) is Ok ==> outcome is Answered,
{
}

/// The address at which `model` is asked to generate, authorised by `api_key`.
pub open spec fn endpoint_of(model: Seq<char>, api_key: Seq<char>) -> Seq<char> {
    ENDPOINT_BASE@ + model + ENDPOINT_ACTION@ + api_key
}

/// What is sent for a chat: the history in wire form, then the new message as a turn of
/// the person chatting.
pub open spec fn chat_contents(message: Seq<char>, history: Seq<MessageView>) -> Seq<
    ContentView,
> {
    wire_history(history).push(single_part(USER_ROLE@, message))
}

/// What is sent for a prompt: the prompt alone, as a turn of the person chatting.
pub open spec fn generate_contents(prompt: Seq<char>) -> Seq<ContentView> {
    seq![single_part(USER_ROLE@, prompt)]
}

/// The call that posts `contents` to `model` under `api_key`, bounded by the timeout.
pub open spec fn call_for(model: Seq<char>, api_key: Seq<char>, contents: Seq<ContentView>) -> CallView {
    CallView { url: endpoint_of(model, api_key), timeout_secs: REQUEST_TIMEOUT_SECS, contents }
}

/// The client of the provider: which model it addresses, with which key, and the
/// transport that carries a call to the provider and reports how it ended. The client
/// itself keeps no state between calls and never calls twice for one request.
pub struct GeminiRepository<T: Fn(ApiCall) -> ApiOutcome> {
    transport: T,
    api_key: String,
    model: String,
}

impl<T: Fn(ApiCall) -> ApiOutcome> GeminiRepository<T> {
    #[verifier::type_invariant]
    spec fn transport_takes_every_call(self) -> bool {
        forall|call: ApiCall| call_requires(self.transport, (call,))
    }

    /// The transport that carries this client's calls.
    pub closed spec fn transport(&self) -> T {
        self.transport
    }

    /// The key that authorises this client's calls.
    pub closed spec fn api_key(&self) -> Seq<char> {
        self.api_key@
    }

    /// The model that this client addresses.
    pub closed spec fn model(&self) -> Seq<char> {
        self.model@
    }

    /// A client for the default model. The transport must take every call.
    pub fn new(api_key: String, transport: T) -> (repository: Self)
        requires
            forall|call: ApiCall| call_requires(transport, (call,)),
        ensures
            repository.api_key() == api_key@,
            repository.model() == DEFAULT_MODEL@,
            repository.transport() == transport,
    {
        GeminiRepository { transport, api_key, model: String::from_str(DEFAULT_MODEL) }
    }

    /// A client for `model`, or for the default model where none is given. The transport
    /// must take every call.
    pub fn with_model(api_key: String, model: Option<String>, transport: T) -> (repository: Self)
        requires
            forall|call: ApiCall| call_requires(transport, (call,)),
        ensures
            repository.api_key() == api_key@,
            repository.model() == match model {
                Some(name) => name@,
                None => DEFAULT_MODEL@,
            },
            repository.transport() == transport,
    {
        let model = match model {
            Some(name) => name,
            None => String::from_str(DEFAULT_MODEL),
        };
        GeminiRepository { transport, api_key, model }
    }

    /// The address to which this client posts.
    pub fn endpoint_url(&self) -> (url: String)
        ensures
            url@ == endpoint_of(self.model(), self.api_key()),
    {
        let mut url = String::from_str(ENDPOINT_BASE);
        url.append(self.model.as_str());
        url.append(ENDPOINT_ACTION);
        url.append(self.api_key.as_str());
        url
    }

    /// The history in wire form: one single-part turn for each message, in the same
    /// order, with the role normalised.
    pub fn convert_history(&self, history: Vec<ChatMessage>) -> (contents: Vec<GeminiContent>)
        ensures
            contents.deep_view() == wire_history(history.deep_view()),
    {
        let ghost messages = history.deep_view();
        let mut contents: Vec<GeminiContent> = Vec::new();
        for message in it: history.into_iter()
            invariant
                it.seq().len() == messages.len(),
                forall|i: int| 0 <= i < messages.len() ==> (#[trigger] it.seq()[i])@ == messages[i],
                contents.deep_view() == wire_history(messages.take(it.index() as int)),
        {
            let ghost before = contents.deep_view();
            let ghost done = it.index() as int;
            contents.push(GeminiContent::from_message(message));
            assert(contents.deep_view() =~= before.push(wire_content(messages[done])));
            assert(messages.take(done + 1) =~= messages.take(done).push(messages[done]));
            assert(wire_history(messages.take(done + 1)) =~= before.push(
                wire_content(messages[done]),
            ));
        }
        assert(messages.take(messages.len() as int) =~= messages);
        contents
    }

    /// The body of the call that asks for a reply to `message` after `history`.
    pub fn chat_request(&self, message: String, history: Vec<ChatMessage>) -> (request:
        GeminiRequest)
        ensures
            request@ == chat_contents(message@, history.deep_view()),
    {
        let mut contents = self.convert_history(history);
        let ghost before = contents.deep_view();
        contents.push(GeminiContent::user(message));
        assert(contents.deep_view() =~= before.push(single_part(USER_ROLE@, message@)));
        GeminiRequest { contents }
    }

    /// The body of the call that asks for a text for `prompt`.
    pub fn generate_request(&self, prompt: String) -> (request: GeminiRequest)
        ensures
            request@ == generate_contents(prompt@),
    {
        let mut contents: Vec<GeminiContent> = Vec::new();
        contents.push(GeminiContent::user(prompt));
        assert(contents.deep_view() =~= seq![single_part(USER_ROLE@, prompt@)]);
        GeminiRequest { contents }
    }

    /// Posts `contents` to the provider, once, and makes a reply of how the call ended.
    pub fn call_gemini_api(&self, contents: Vec<GeminiContent>) -> (reply: Result<
        String,
        AppError,
    >)
        ensures
            exists|call: ApiCall, outcome: ApiOutcome|
                {
                    &&& call@ == call_for(self.model(), self.api_key(), contents.deep_view())
                    &&& #[trigger] call_ensures(self.transport(), (call,), outcome)
                    &&& text_result_view(reply) == outcome_reply(outcome@)
                },
    {
        proof {
            use_type_invariant(self);
        }
        let call = ApiCall {
            url: self.endpoint_url(),
            timeout_secs: REQUEST_TIMEOUT_SECS,
            body: GeminiRequest { contents },
        };
        let ghost sent = call;
        let outcome = (self.transport)(call);
        let ghost ended = outcome;
        let reply = reply_from_outcome(outcome);
        assert(call_ensures(self.transport(), (sent,), ended));
        reply
    }
}

impl<T: Fn(ApiCall) -> ApiOutcome + Send + Sync> AIRepository for GeminiRepository<T> {
    /// Posts the history in wire form, followed by `message` as a turn of the person
    /// chatting, and returns the reply text.
    fn chat(&self, message: String, history: Vec<ChatMessage>) -> (reply: Result<
        String,
        AppError,
    >)
        ensures
            exists|call: ApiCall, outcome: ApiOutcome|
                {
                    &&& call@ == call_for(
                        self.model(),
                        self.api_key(),
                        chat_contents(message@, history.deep_view()),
                    )
                    &&& #[trigger] call_ensures(self.transport(), (call,), outcome)
                    &&& text_result_view(reply) == outcome_reply(outcome@)
                },
    {
        let request = self.chat_request(message, history);
        self.call_gemini_api(request.contents)
    }

    /// Posts `prompt` alone, as a turn of the person chatting, and returns the text.
    fn generate(&self, prompt: String) -> (reply: Result<String, AppError>)
        ensures
            exists|call: ApiCall, outcome: ApiOutcome|
                {
                    &&& call@ == call_for(
                        self.model(),
                        self.api_key(),
                        generate_contents(prompt@),
                    )
                    &&& #[trigger] call_ensures(self.transport(), (call,), outcome)
                    &&& text_result_view(reply) == outcome_reply(outcome@)
                },
    {
        let request = self.generate_request(prompt);
        self.call_gemini_api(request.contents)
    }
}

/// What a parsed answer yields.
pub fn extract_reply(response: &GeminiResponse) -> (reply: Result<String, AppError>)
    ensures
        text_result_view(reply) == answer_reply(response@),
{
    match response.first_text() {
        Some(text) => Ok(text),
        None => Err(AppError::ExternalService(String::from_str(NO_RESPONSE))),
    }
}

/// The diagnostic of a refused call, from the line of its status and the body that came
/// with it.
pub fn refusal_diagnostic(status: &str, body: Option<String>) -> (text: String)
    ensures
        text@ == refusal_diagnostic_text(
            status@,
            match body {
                Some(sent) => Some(sent@),
                None => None,
            },
        ),
{
    let mut text = String::from_str(API_ERROR_PREFIX);
    text.append(status);
    text.append(API_ERROR_INFIX);
    match body {
        Some(sent) => text.append(sent.as_str()),
        None => text.append(UNKNOWN_ERROR_BODY),
    }
    text
}

/// What a call yields, however it ended. There is no partial success: the reply is the
/// whole text that the provider sent, or an error.
pub fn reply_from_outcome(outcome: ApiOutcome) -> (reply: Result<String, AppError>)
    ensures
        text_result_view(reply) == outcome_reply(outcome@),
{
    match outcome {
        ApiOutcome::Unreachable(detail) => {
            let mut text = String::from_str(CALL_FAILED_PREFIX);
            text.append(detail.as_str());
            Err(AppError::ExternalService(text))
        },
        ApiOutcome::Refused { status, body } => {
            let line = status.to_string();
            Err(AppError::ExternalService(refusal_diagnostic(line.as_str(), body)))
        },
        ApiOutcome::Malformed(detail) => {
            let mut text = String::from_str(PARSE_FAILED_PREFIX);
            text.append(detail.as_str());
            Err(AppError::ExternalService(text))
        },
        ApiOutcome::Answered(response) => extract_reply(&response),
    }
}

/// The history that a list of turns on the wire stands for.
pub fn history_from_wire(contents: &Vec<GeminiContent>) -> (history: Vec<ChatMessage>)
    ensures
        history.deep_view() == history_of(contents.deep_view()),
{
    let mut history: Vec<ChatMessage> = Vec::new();
    let mut i: usize = 0;
    while i < contents.len()
        invariant
            i <= contents.len(),
            history.deep_view() == history_of(contents.deep_view().take(i as int)),
        decreases contents.len() - i,
    {
        let ghost before = history.deep_view();
        let ghost wire = contents.deep_view();
        history.push(contents[i].to_message());
        assert(history.deep_view() =~= before.push(message_of(wire[i as int])));
        assert(wire.take(i + 1) =~= wire.take(i as int).push(wire[i as int]));
        assert(history_of(wire.take(i + 1)) =~= before.push(message_of(wire[i as int])));
        i = i + 1;
    }
    assert(contents.deep_view().take(contents.len() as int) =~= contents.deep_view());
    history
}

} // verus!
