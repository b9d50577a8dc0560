use chat_backend::ai_repository::{AIRepository, ApiCall, ApiOutcome, GeminiRepository};
use chat_backend::ai_service::AIService;
use chat_backend::config::{Config, ConfigError, DEFAULT_HOST, DEFAULT_LOG_FILTER, DEFAULT_PORT};
use chat_backend::dto::{ChatRequest, ChatResponse, GenerateRequest, GenerateResponse};
use chat_backend::schema::MutationRoot;

fn some(text: &str) -> Option<String> {
    Some(text.to_string())
}

#[test]
fn defaults_fill_what_is_not_set() {
    assert_eq!(
        Config::init(some("postgres://db"), None, None, None),
        Ok(Config {
            database_url: "postgres://db".to_string(),
            server_host: "127.0.0.1".to_string(),
            server_port: 3000,
            rust_log: "info".to_string(),
        })
    );
    assert_eq!(DEFAULT_HOST, "127.0.0.1");
    assert_eq!(DEFAULT_PORT, 3000);
    assert_eq!(DEFAULT_LOG_FILTER, "info");
}

#[test]
fn set_values_are_taken() {
    assert_eq!(
        Config::init(some("postgres://db"), some("0.0.0.0"), some("8080"), some("debug")),
        Ok(Config {
            database_url: "postgres://db".to_string(),
            server_host: "0.0.0.0".to_string(),
            server_port: 8080,
            rust_log: "debug".to_string(),
        })
    );
}

#[test]
fn missing_database_url_is_an_error() {
    assert_eq!(Config::init(None, None, None, None), Err(ConfigError::MissingDatabaseUrl));
    assert_eq!(ConfigError::MissingDatabaseUrl.message(), "DATABASE_URL must be set");
}

#[test]
fn missing_database_url_is_reported_before_a_bad_port() {
    assert_eq!(Config::init(None, None, some("x"), None), Err(ConfigError::MissingDatabaseUrl));
}

#[test]
fn port_must_read_as_a_port() {
    for port in ["", "x", "65536", "-1", " 80", "80 ", "8o"] {
        assert_eq!(
            Config::init(some("db"), None, some(port), None),
            Err(ConfigError::InvalidPort),
            "port {:?}",
            port
        );
    }
    assert_eq!(ConfigError::InvalidPort.message(), "SERVER_PORT must be a valid u16");
}

#[test]
fn port_bounds_read_as_ports() {
    assert_eq!(Config::init(some("db"), None, some("0"), None).unwrap().server_port, 0);
    assert_eq!(Config::init(some("db"), None, some("65535"), None).unwrap().server_port, 65535);
    assert_eq!(Config::init(some("db"), None, some("+443"), None).unwrap().server_port, 443);
}

struct Echo;

impl AIRepository for Echo {
    fn chat(&self, message: String, _history: Vec<chat_backend::ai_model::ChatMessage>) -> Result<String, chat_backend::error::AppError> {
        Ok(message)
    }

    fn generate(&self, prompt: String) -> Result<String, chat_backend::error::AppError> {
        Ok(prompt)
    }
}

#[test]
fn chat_mutation_answers_with_the_reply() {
    let service = AIService::new(Echo);
    assert_eq!(
        MutationRoot.chat(&service, ChatRequest { message: "ping".to_string(), history: vec![] }),
        Ok(ChatResponse { response: "ping".to_string(), model: "gemini-2.0-flash-exp".to_string() })
    );
    assert_eq!(
        MutationRoot.generate(&service, GenerateRequest { prompt: "p".to_string(), max_tokens: None }),
        Ok(GenerateResponse { text: "p".to_string(), model: "gemini-2.0-flash-exp".to_string() })
    );
}

#[test]
fn chat_mutation_reports_the_violation_without_the_error_prefix() {
    let service = AIService::new(Echo);
    assert_eq!(
        MutationRoot.chat(&service, ChatRequest { message: String::new(), history: vec![] }),
        Err("message: Message cannot be empty".to_string())
    );
    assert_eq!(
        MutationRoot.generate(&service, GenerateRequest { prompt: String::new(), max_tokens: None }),
        Err("prompt: Prompt cannot be empty".to_string())
    );
}

#[test]
fn chat_mutation_describes_a_provider_error() {
    let repository = GeminiRepository::new("k".to_string(), |_call: ApiCall| {
        ApiOutcome::Unreachable("dns".to_string())
    });
    let service = AIService::new(repository);
    assert_eq!(
        MutationRoot.chat(&service, ChatRequest { message: "m".to_string(), history: vec![] }),
        Err("External service error: Failed to call Gemini API: dns".to_string())
    );
}

#[test]
fn assembled_settings_take_the_given_port() {
    assert_eq!(
        Config::assemble(some("db"), some("h"), Some(1), some("trace")),
        Ok(Config {
            database_url: "db".to_string(),
            server_host: "h".to_string(),
            server_port: 1,
            rust_log: "trace".to_string(),
        })
    );
    assert_eq!(Config::assemble(some("db"), None, None, None), Err(ConfigError::InvalidPort));
    assert_eq!(Config::assemble(None, None, None, None), Err(ConfigError::MissingDatabaseUrl));
}
