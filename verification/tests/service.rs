use chat_backend::ai_model::ChatMessage;
use chat_backend::ai_repository::{AIRepository, ApiCall, ApiOutcome, GeminiRepository};
use chat_backend::ai_service::{AIService, MODEL_LABEL};
use chat_backend::dto::{ChatRequest, ChatResponse, GenerateRequest, GenerateResponse};
use chat_backend::error::AppError;
use chat_backend::wire::{
    GeminiCandidate, GeminiContentResponse, GeminiPartResponse, GeminiResponse,
};
use std::sync::atomic::{AtomicUsize, Ordering};
use std::sync::{Arc, Mutex};

/// A client that counts its calls, remembers what it was handed, and answers as told.
struct Double {
    calls: AtomicUsize,
    seen: Mutex<Vec<(String, Vec<ChatMessage>)>>,
    reply: Result<String, AppError>,
}

impl Double {
    fn answering(reply: Result<String, AppError>) -> Arc<Double> {
        Arc::new(Double { calls: AtomicUsize::new(0), seen: Mutex::new(Vec::new()), reply })
    }

    fn calls(&self) -> usize {
        self.calls.load(Ordering::SeqCst)
    }
}

impl AIRepository for Double {
    fn chat(&self, message: String, history: Vec<ChatMessage>) -> Result<String, AppError> {
        self.calls.fetch_add(1, Ordering::SeqCst);
        self.seen.lock().unwrap().push((message, history));
        self.reply.clone()
    }

    fn generate(&self, prompt: String) -> Result<String, AppError> {
        self.calls.fetch_add(1, Ordering::SeqCst);
        self.seen.lock().unwrap().push((prompt, Vec::new()));
        self.reply.clone()
    }
}

fn chat_request(message: &str) -> ChatRequest {
    ChatRequest { message: message.to_string(), history: Vec::new() }
}

fn generate_request(prompt: &str) -> GenerateRequest {
    GenerateRequest { prompt: prompt.to_string(), max_tokens: None }
}

#[test]
fn model_label_is_fixed() {
    assert_eq!(MODEL_LABEL, "gemini-2.0-flash-exp");
}

#[test]
fn chat_with_empty_message_is_a_validation_error_without_a_call() {
    let double = Double::answering(Ok("never".to_string()));
    let service = AIService::new(double.clone());
    assert_eq!(
        service.chat(chat_request("")),
        Err(AppError::Validation("message: Message cannot be empty".to_string()))
    );
    assert_eq!(double.calls(), 0);
}

#[test]
fn generate_with_empty_prompt_is_a_validation_error_without_a_call() {
    let double = Double::answering(Ok("never".to_string()));
    let service = AIService::new(double.clone());
    assert_eq!(
        service.generate(generate_request("")),
        Err(AppError::Validation("prompt: Prompt cannot be empty".to_string()))
    );
    assert_eq!(double.calls(), 0);
}

#[test]
fn chat_stream_with_empty_message_is_a_validation_error_without_a_call() {
    let double = Double::answering(Ok("never".to_string()));
    let service = AIService::new(double.clone());
    assert_eq!(
        service.chat_stream(chat_request("")).err(),
        Some(AppError::Validation("message: Message cannot be empty".to_string()))
    );
    assert_eq!(double.calls(), 0);
}

#[test]
fn empty_history_entry_is_not_revalidated() {
    let double = Double::answering(Ok("ok".to_string()));
    let service = AIService::new(double.clone());
    let request = ChatRequest {
        message: "hi".to_string(),
        history: vec![ChatMessage { role: String::new(), content: String::new() }],
    };
    assert!(service.chat(request).is_ok());
    assert_eq!(double.calls(), 1);
}

#[test]
fn chat_wraps_reply_with_model_label() {
    let double = Double::answering(Ok("hello there".to_string()));
    let service = AIService::new(double.clone());
    assert_eq!(
        service.chat(chat_request("hi")),
        Ok(ChatResponse {
            response: "hello there".to_string(),
            model: "gemini-2.0-flash-exp".to_string()
        })
    );
    assert_eq!(double.calls(), 1);
}

#[test]
fn chat_hands_message_and_history_to_the_client_as_they_came() {
    let double = Double::answering(Ok("r".to_string()));
    let service = AIService::new(double.clone());
    let history = vec![ChatMessage::user("a"), ChatMessage::assistant("b")];
    let request = ChatRequest {
        message: " spaced message ".to_string(),
        history: vec![ChatMessage::user("a"), ChatMessage::assistant("b")],
    };
    service.chat(request).unwrap();
    let seen = double.seen.lock().unwrap();
    assert_eq!(seen.len(), 1);
    assert_eq!(seen[0], (" spaced message ".to_string(), history));
}

#[test]
fn generate_wraps_text_with_model_label() {
    let double = Double::answering(Ok("a poem".to_string()));
    let service = AIService::new(double.clone());
    assert_eq!(
        service.generate(GenerateRequest { prompt: "poem".to_string(), max_tokens: Some(5) }),
        Ok(GenerateResponse { text: "a poem".to_string(), model: "gemini-2.0-flash-exp".to_string() })
    );
    assert_eq!(double.seen.lock().unwrap()[0].0, "poem");
}

#[test]
fn max_tokens_does_not_change_the_call() {
    let seen: Arc<Mutex<Vec<ApiCall>>> = Arc::new(Mutex::new(Vec::new()));
    let log = seen.clone();
    let repository = GeminiRepository::new("k".to_string(), move |call: ApiCall| {
        log.lock().unwrap().push(call);
        ApiOutcome::Unreachable("down".to_string())
    });
    let service = AIService::new(repository);
    let _ = service.generate(GenerateRequest { prompt: "p".to_string(), max_tokens: None });
    let _ = service.generate(GenerateRequest { prompt: "p".to_string(), max_tokens: Some(1) });
    let calls = seen.lock().unwrap();
    assert_eq!(calls.len(), 2);
    assert_eq!(calls[0], calls[1]);
}

#[test]
fn client_error_passes_through_unchanged() {
    for error in [
        AppError::ExternalService("Gemini API error (503 Service Unavailable): busy".to_string()),
        AppError::Internal("odd".to_string()),
        AppError::NotFound,
    ] {
        let double = Double::answering(Err(error.clone()));
        let service = AIService::new(double.clone());
        assert_eq!(service.chat(chat_request("hi")), Err(error.clone()));
        assert_eq!(service.generate(generate_request("hi")), Err(error.clone()));
        assert_eq!(service.chat_stream(chat_request("hi")).err(), Some(error));
        assert_eq!(double.calls(), 3);
    }
}

#[test]
fn generate_through_the_client_returns_the_first_text() {
    let repository = GeminiRepository::new("k".to_string(), |_call: ApiCall| {
        ApiOutcome::Answered(GeminiResponse {
            candidates: vec![GeminiCandidate {
                content: GeminiContentResponse {
                    parts: vec![GeminiPartResponse { text: Some("hello world".to_string()) }],
                },
            }],
        })
    });
    let service = AIService::new(repository);
    let response = service.generate(generate_request("hi")).unwrap();
    assert_eq!(response.text, "hello world");
    assert_eq!(response.model, "gemini-2.0-flash-exp");
}

#[test]
fn shaping_functions_agree_with_the_service() {
    assert_eq!(
        AIService::<Arc<Double>>::chat_response(Ok("x".to_string())),
        Ok(ChatResponse { response: "x".to_string(), model: MODEL_LABEL.to_string() })
    );
    assert_eq!(
        AIService::<Arc<Double>>::generate_response(Err(AppError::NotFound)),
        Err(AppError::NotFound)
    );
    let mut stream = AIService::<Arc<Double>>::stream_response(Ok("a b".to_string())).unwrap();
    assert_eq!(stream.drain().len(), 2);
}

#[test]
fn chat_stream_hands_out_the_words_of_the_reply() {
    let double = Double::answering(Ok("hello world foo".to_string()));
    let service = AIService::new(double.clone());
    let mut stream = service.chat_stream(chat_request("hi")).unwrap();
    let chunks = stream.drain();
    let words: Vec<&str> = chunks.iter().map(|c| c.text.as_str()).collect();
    assert_eq!(words, vec!["hello", "world", "foo"]);
    assert!(chunks.iter().all(|c| c.delay_ms == 50));
    assert_eq!(words.join(" "), "hello world foo");
    assert_eq!(double.calls(), 1);
}

#[test]
fn cloned_service_shares_the_client() {
    let double = Double::answering(Ok("r".to_string()));
    let service = AIService::new(double.clone());
    let copy = service.clone();
    service.chat(chat_request("a")).unwrap();
    copy.chat(chat_request("b")).unwrap();
    assert_eq!(double.calls(), 2);
}
