use chat_backend::dto::{ChatRequest, GenerateRequest};
use chat_backend::error::{
    AppError, DATABASE_FAILURE_MESSAGE, INTERNAL_FAILURE_MESSAGE, NOT_FOUND_MESSAGE,
};

#[test]
fn status_codes_follow_the_kind_of_error() {
    assert_eq!(AppError::Database("x".to_string()).status_code(), 500);
    assert_eq!(AppError::Validation("x".to_string()).status_code(), 400);
    assert_eq!(AppError::NotFound.status_code(), 404);
    assert_eq!(AppError::Internal("x".to_string()).status_code(), 500);
    assert_eq!(AppError::ExternalService("x".to_string()).status_code(), 502);
}

#[test]
fn reported_message_hides_internal_diagnostics() {
    assert_eq!(AppError::Database("password leaked".to_string()).reported_message(), "Database error");
    assert_eq!(AppError::Internal("stack trace".to_string()).reported_message(), "Internal server error");
    assert_eq!(AppError::NotFound.reported_message(), "Resource not found");
    assert_eq!(DATABASE_FAILURE_MESSAGE, "Database error");
    assert_eq!(INTERNAL_FAILURE_MESSAGE, "Internal server error");
    assert_eq!(NOT_FOUND_MESSAGE, "Resource not found");
}

#[test]
fn reported_message_carries_caller_and_provider_diagnostics() {
    assert_eq!(
        AppError::Validation("message: Message cannot be empty".to_string()).reported_message(),
        "message: Message cannot be empty"
    );
    assert_eq!(
        AppError::ExternalService("No response from Gemini".to_string()).reported_message(),
        "No response from Gemini"
    );
}

#[test]
fn description_names_the_kind_of_error() {
    assert_eq!(AppError::Database("down".to_string()).to_string(), "Database error: down");
    assert_eq!(AppError::Validation("bad".to_string()).to_string(), "Validation error: bad");
    assert_eq!(AppError::NotFound.to_string(), "User not found");
    assert_eq!(AppError::Internal("oops".to_string()).to_string(), "Internal server error");
    assert_eq!(
        AppError::ExternalService("late".to_string()).to_string(),
        "External service error: late"
    );
}

#[test]
fn clone_is_equal() {
    let error = AppError::ExternalService("x".to_string());
    assert_eq!(error.clone(), error);
}

#[test]
fn chat_request_with_text_is_valid() {
    let request = ChatRequest { message: "x".to_string(), history: vec![] };
    assert_eq!(request.validate(), Ok(()));
}

#[test]
fn chat_request_with_blank_text_is_valid() {
    let request = ChatRequest { message: " ".to_string(), history: vec![] };
    assert_eq!(request.validate(), Ok(()));
}

#[test]
fn chat_request_without_text_names_field_and_rule() {
    let request = ChatRequest { message: String::new(), history: vec![] };
    assert_eq!(request.validate(), Err("message: Message cannot be empty".to_string()));
}

#[test]
fn generate_request_with_text_is_valid() {
    let request = GenerateRequest { prompt: "é".to_string(), max_tokens: Some(-1) };
    assert_eq!(request.validate(), Ok(()));
}

#[test]
fn generate_request_without_text_names_field_and_rule() {
    let request = GenerateRequest { prompt: String::new(), max_tokens: None };
    assert_eq!(request.validate(), Err("prompt: Prompt cannot be empty".to_string()));
}
