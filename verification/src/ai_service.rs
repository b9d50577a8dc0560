//! The service in front of the provider's client: it checks a request, hands a valid one
//! to the client, and shapes the answer.

use crate::ai_repository::AIRepository;
use crate::dto::{
    ChatRequest, ChatResponse, ChatResponseView, GenerateRequest, GenerateResponse,
    GenerateResponseView,
};
use crate::error::{text_result_view, AppError, ErrorView};
use crate::streaming::ChunkStream;
use crate::text::split_words;
use vstd::prelude::*;

verus! {

/// The label under which every answer names its model.
pub const MODEL_LABEL: &'static str = "gemini-2.0-flash-exp";

/// Mathematical value of the result of a chat.
pub open spec fn chat_result_view(result: Result<ChatResponse, AppError>) -> Result<
    ChatResponseView,
    ErrorView,
> {
    match result {
        Ok(response) => Ok(response@),
        Err(error) => Err(error@),
    }
}

/// Mathematical value of the result of a generation.
pub open spec fn generate_result_view(result: Result<GenerateResponse, AppError>) -> Result<
    GenerateResponseView,
    ErrorView,
> {
    match result {
        Ok(response) => Ok(response@),
        Err(error) => Err(error@),
    }
}

/// What is left of the result of a streamed chat once the words have been handed out:
/// the words in their order, or the error.
pub open spec fn stream_result_view(result: Result<ChunkStream, AppError>) -> Result<
    Seq<Seq<char>>,
    ErrorView,
> {
    match result {
        Ok(stream) => Ok(stream.remaining()),
        Err(error) => Err(error@),
    }
}

/// The result of a chat whose client call ended in `reply`: the reply text under the
/// model label, or the client's error as it is.
pub open spec fn chat_outcome(reply: Result<Seq<char>, ErrorView>) -> Result<
    ChatResponseView,
    ErrorView,
> {
    match reply {
        Ok(text) => Ok(ChatResponseView { response: text, model: MODEL_LABEL@ }),
        Err(error) => Err(error),
    }
}

/// The result of a generation whose client call ended in `reply`: the text under the
/// model label, or the client's error as it is.
pub open spec fn generate_outcome(reply: Result<Seq<char>, ErrorView>) -> Result<
    GenerateResponseView,
    ErrorView,
> {
    match reply {
        Ok(text) => Ok(GenerateResponseView { text, model: MODEL_LABEL@ }),
        Err(error) => Err(error),
    }
}

/// The result of a streamed chat whose client call ended in `reply`: the words of the
/// reply text, or the client's error as it is.
pub open spec fn stream_outcome(reply: Result<Seq<char>, ErrorView>) -> Result<
    Seq<Seq<char>>,
    ErrorView,
> {
    match reply {
        Ok(text) => Ok(split_words(text)),
        Err(error) => Err(error),
    }
}

/// The service. It holds nothing but its client.
pub struct AIService<R: AIRepository> {
    repository: R,
}

impl<R: AIRepository + Clone> Clone for AIService<R> {
    fn clone(&self) -> (copy: Self) {
        AIService { repository: self.repository.clone() }
    }
}

impl<R: AIRepository> AIService<R> {
    /// The client that this service calls.
    pub closed spec fn repository(&self) -> R {
        self.repository
    }

    /// Whether `result` is an answer of this service to the chat request `input`. A
    /// request that is not valid is turned down with a validation error that names the
    /// violated rule. A valid one is answered with what [`chat_outcome`] makes of a reply
    /// of the client to the request's message and history, handed on as they came.
    pub open spec fn is_chat_result(
        &self,
        input: ChatRequest,
        result: Result<ChatResponse, AppError>,
    ) -> bool {
        if input.is_valid() {
            exists|reply: Result<String, AppError>|
                {
                    &&& #[trigger] call_ensures(
                        R::chat,
                        (&self.repository(), input.message, input.history),
                        reply,
                    )
                    &&& chat_result_view(result) == chat_outcome(text_result_view(reply))
                }
        } else {
            chat_result_view(result) == Err::<ChatResponseView, ErrorView>(
                ErrorView::Validation(ChatRequest::violation()),
            )
        }
    }

    /// Whether `result` is an answer of this service to the generation request `input`:
    /// as [`Self::is_chat_result`], with the prompt in place of message and history and
    /// [`generate_outcome`] in place of [`chat_outcome`].
    pub open spec fn is_generate_result(
        &self,
        input: GenerateRequest,
        result: Result<GenerateResponse, AppError>,
    ) -> bool {
        if input.is_valid() {
            exists|reply: Result<String, AppError>|
                {
                    &&& #[trigger] call_ensures(
                        R::generate,
                        (&self.repository(), input.prompt),
                        reply,
                    )
                    &&& generate_result_view(result) == generate_outcome(text_result_view(reply))
                }
        } else {
            generate_result_view(result) == Err::<GenerateResponseView, ErrorView>(
                ErrorView::Validation(GenerateRequest::violation()),
            )
        }
    }

    /// Whether `result` is an answer of this service to the chat request `input` in
    /// streamed form: as [`Self::is_chat_result`], with [`stream_outcome`] in place of
    /// [`chat_outcome`], and with no word handed out yet.
    pub open spec fn is_stream_result(
        &self,
        input: ChatRequest,
        result: Result<ChunkStream, AppError>,
    ) -> bool {
        &&& result matches Ok(stream) ==> stream.emitted() == Seq::<Seq<char>>::empty()
        &&& if input.is_valid() {
            exists|reply: Result<String, AppError>|
                {
                    &&& #[trigger] call_ensures(
                        R::chat,
                        (&self.repository(), input.message, input.history),
                        reply,
                    )
                    &&& stream_result_view(result) == stream_outcome(text_result_view(reply))
                }
        } else {
            stream_result_view(result) == Err::<Seq<Seq<char>>, ErrorView>(
                ErrorView::Validation(ChatRequest::violation()),
            )
        }
    }

    /// A service in front of `repository`.
    pub fn new(repository: R) -> (service: Self)
        ensures
            service.repository() == repository,
    {
        AIService { repository }
    }

    /// Shapes the result of a chat from what the client returned.
    pub fn chat_response(reply: Result<String, AppError>) -> (result: Result<
        ChatResponse,
        AppError,
    >)
        ensures
            chat_result_view(result) == chat_outcome(text_result_view(reply)),
    {
        match reply {
            Ok(response) => Ok(ChatResponse { response, model: String::from_str(MODEL_LABEL) }),
            Err(error) => Err(error),
        }
    }

    /// Shapes the result of a generation from what the client returned.
    pub fn generate_response(reply: Result<String, AppError>) -> (result: Result<
        GenerateResponse,
        AppError,
    >)
        ensures
            generate_result_view(result) == generate_outcome(text_result_view(reply)),
    {
        match reply {
            Ok(text) => Ok(GenerateResponse { text, model: String::from_str(MODEL_LABEL) }),
            Err(error) => Err(error),
        }
    }

    /// Shapes the result of a streamed chat from what the client returned.
    pub fn stream_response(reply: Result<String, AppError>) -> (result: Result<
        ChunkStream,
        AppError,
    >)
        ensures
            stream_result_view(result) == stream_outcome(text_result_view(reply)),
            result matches Ok(stream) ==> stream.emitted() == Seq::<Seq<char>>::empty(),
    {
        match reply {
            Ok(text) => Ok(ChunkStream::new(text.as_str())),
            Err(error) => Err(error),
        }
    }

    /// Answers a chat request. A request that is not valid is turned down with a
    /// validation error before the client is called. A valid one is handed to the
    /// client, once, message and history as they came, and the client's answer is shaped
    /// by [`Self::chat_response`]: a reply text is wrapped with the model label, an error
    /// is passed on unchanged.
    pub fn chat(&self, input: ChatRequest) -> (result: Result<ChatResponse, AppError>)
        ensures
            !input.is_valid() ==> chat_result_view(result) == Err::<ChatResponseView, ErrorView>(
                ErrorView::Validation(ChatRequest::violation()),
            ),
            self.is_chat_result(input, result),
    {
        match input.validate() {
            Err(detail) => Err(AppError::Validation(detail)),
            Ok(()) => {
                let reply = self.repository.chat(input.message, input.history);
                let ghost witness = reply;
                let result = Self::chat_response(reply);
                assert(call_ensures(
                    R::chat,
                    (&self.repository(), input.message, input.history),
                    witness,
                ));
                result
            },
        }
    }

    /// Answers a generation request. A request that is not valid is turned down with a
    /// validation error before the client is called. A valid one has its prompt handed
    /// to the client, and the client's answer is shaped by [`Self::generate_response`].
    pub fn generate(&self, input: GenerateRequest) -> (result: Result<
        GenerateResponse,
        AppError,
    >)
        ensures
            !input.is_valid() ==> generate_result_view(result) == Err::<
                GenerateResponseView,
                ErrorView,
            >(ErrorView::Validation(GenerateRequest::violation())),
            self.is_generate_result(input, result),
    {
        match input.validate() {
            Err(detail) => Err(AppError::Validation(detail)),
            Ok(()) => {
                let reply = self.repository.generate(input.prompt);
                let ghost witness = reply;
                let result = Self::generate_response(reply);
                assert(call_ensures(R::generate, (&self.repository(), input.prompt), witness));
                result
            },
        }
    }

    /// Answers a chat request as [`Self::chat`] does, and hands the reply out as the
    /// stream of its words.
    pub fn chat_stream(&self, input: ChatRequest) -> (result: Result<ChunkStream, AppError>)
        ensures
            !input.is_valid() ==> stream_result_view(result) == Err::<Seq<Seq<char>>, ErrorView>(
                ErrorView::Validation(ChatRequest::violation()),
            ),
            self.is_stream_result(input, result),
    {
        match input.validate() {
            Err(detail) => Err(AppError::Validation(detail)),
            Ok(()) => {
                let reply = self.repository.chat(input.message, input.history);
                let ghost witness = reply;
                let result = Self::stream_response(reply);
                assert(call_ensures(
                    R::chat,
                    (&self.repository(), input.message, input.history),
                    witness,
                ));
                result
            },
        }
    }
}

} // verus!
