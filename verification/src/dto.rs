//! What a caller sends to the service and what it gets back.

use crate::ai_model::{ChatMessage, MessageView};
use crate::model::{id_text, User, UserView};
use crate::validation::{
    describe_two_violations, describe_violation, has_min_length, is_email, is_email_address,
    two_lines, violation_text,
};
use vstd::prelude::*;

verus! {

/// Name of the rule that bounds a text's length.
pub const LENGTH_RULE: &'static str = "length";

/// Name of the field that holds a chat request's message.
pub const MESSAGE_FIELD: &'static str = "message";

/// What the caller is told about an empty chat message.
pub const EMPTY_MESSAGE: &'static str = "Message cannot be empty";

/// Name of the field that holds a generation request's prompt.
pub const PROMPT_FIELD: &'static str = "prompt";

/// What the caller is told about an empty prompt.
pub const EMPTY_PROMPT: &'static str = "Prompt cannot be empty";

/// Name of the rule that asks for an e-mail address.
pub const EMAIL_RULE: &'static str = "email";

/// Name of the field that holds a user's name.
pub const NAME_FIELD: &'static str = "name";

/// What the caller is told about an empty name.
pub const EMPTY_NAME: &'static str = "Name cannot be empty";

/// Name of the field that holds a user's e-mail address.
pub const EMAIL_FIELD: &'static str = "email";

/// What the caller is told about a text that is no e-mail address.
pub const INVALID_EMAIL: &'static str = "Invalid email format";

/// Whether `detail` reports exactly the violations at hand: the line for the name where
/// the name is not in order, the line for the address where the address is not in order,
/// and, where both are not, the two lines in either order.
pub open spec fn is_user_violation_report(name_ok: bool, email_ok: bool, detail: Seq<char>) -> bool {
    let name_line = violation_text(NAME_FIELD@, EMPTY_NAME@);
    let email_line = violation_text(EMAIL_FIELD@, INVALID_EMAIL@);
    if !name_ok && !email_ok {
        detail == two_lines(name_line, email_line) || detail == two_lines(email_line, name_line)
    } else if !name_ok {
        detail == name_line
    } else if !email_ok {
        detail == email_line
    } else {
        false
    }
}

/// The outcome of the check of a user's fields, from the answers to the two questions
/// whether the name is in order and whether the address is: success where both are, and
/// else the rendered report of the violations; see [`is_user_violation_report`].
pub fn user_violation_report(name_ok: bool, email_ok: bool) -> (outcome: Result<(), String>)
    ensures
        outcome is Ok <==> name_ok && email_ok,
        outcome matches Err(detail) ==> is_user_violation_report(name_ok, email_ok, detail@),
{
    if name_ok && email_ok {
        Ok(())
    } else if name_ok {
        Err(describe_violation(EMAIL_FIELD, EMAIL_RULE, INVALID_EMAIL))
    } else if email_ok {
        Err(describe_violation(NAME_FIELD, LENGTH_RULE, EMPTY_NAME))
    } else {
        proof {
            reveal_strlit("name");
            reveal_strlit("email");
            assert(NAME_FIELD@.len() != EMAIL_FIELD@.len());
        }
        Err(
            describe_two_violations(
                NAME_FIELD,
                LENGTH_RULE,
                EMPTY_NAME,
                EMAIL_FIELD,
                EMAIL_RULE,
                INVALID_EMAIL,
            ),
        )
    }
}

/// What is needed to register a user.
#[derive(Debug, PartialEq, Eq)]
pub struct CreateUserRequest {
    /// The user's name; a valid request has at least one character here.
    pub name: String,
    /// The user's e-mail address; a valid request has an e-mail address here.
    pub email: String,
}

impl CreateUserRequest {
    /// Whether the name is in order.
    pub open spec fn name_is_valid(&self) -> bool {
        self.name@.len() >= 1
    }

    /// Whether the address is in order.
    pub open spec fn email_is_valid(&self) -> bool {
        is_email_address(self.email@)
    }

    /// Whether the request obeys its field rules.
    pub open spec fn is_valid(&self) -> bool {
        self.name_is_valid() && self.email_is_valid()
    }

    /// Checks the field rules; the error is the rendered report of the violations.
    pub fn validate(&self) -> (outcome: Result<(), String>)
        ensures
            outcome is Ok <==> self.is_valid(),
            outcome matches Err(detail) ==> is_user_violation_report(
                self.name_is_valid(),
                self.email_is_valid(),
                detail@,
            ),
    {
        let name_ok = has_min_length(self.name.as_str(), 1);
        let email_ok = is_email(self.email.as_str());
        user_violation_report(name_ok, email_ok)
    }
}

/// What may be changed of a user; a field that is absent stays as it is.
#[derive(Debug, PartialEq, Eq)]
pub struct UpdateUserRequest {
    /// The new name, if the name is to change; then at least one character.
    pub name: Option<String>,
    /// The new e-mail address, if it is to change; then an e-mail address.
    pub email: Option<String>,
}

impl UpdateUserRequest {
    /// Whether the name is in order: absent, or not empty.
    pub open spec fn name_is_valid(&self) -> bool {
        match self.name {
            Some(name) => name@.len() >= 1,
            None => true,
        }
    }

    /// Whether the address is in order: absent, or an e-mail address.
    pub open spec fn email_is_valid(&self) -> bool {
        match self.email {
            Some(email) => is_email_address(email@),
            None => true,
        }
    }

    /// Whether the request obeys its field rules.
    pub open spec fn is_valid(&self) -> bool {
        self.name_is_valid() && self.email_is_valid()
    }

    /// Checks the field rules; the error is the rendered report of the violations.
    pub fn validate(&self) -> (outcome: Result<(), String>)
        ensures
            outcome is Ok <==> self.is_valid(),
            outcome matches Err(detail) ==> is_user_violation_report(
                self.name_is_valid(),
                self.email_is_valid(),
                detail@,
            ),
    {
        let name_ok = match &self.name {
            Some(name) => has_min_length(name.as_str(), 1),
            None => true,
        };
        let email_ok = match &self.email {
            Some(email) => is_email(email.as_str()),
            None => true,
        };
        user_violation_report(name_ok, email_ok)
    }
}

/// A user as the service shows it: every field as text.
#[derive(Debug, PartialEq, Eq)]
pub struct UserResponse {
    pub id: String,
    pub name: String,
    pub email: String,
    pub created_at: String,
    pub updated_at: String,
}

/// Mathematical value of a [`UserResponse`].
pub struct UserResponseView {
    pub id: Seq<char>,
    pub name: Seq<char>,
    pub email: Seq<char>,
    pub created_at: Seq<char>,
    pub updated_at: Seq<char>,
}

impl View for UserResponse {
    type V = UserResponseView;

    open spec fn view(&self) -> UserResponseView {
        UserResponseView {
            id: self.id@,
            name: self.name@,
            email: self.email@,
            created_at: self.created_at@,
            updated_at: self.updated_at@,
        }
    }
}

impl DeepView for UserResponse {
    type V = UserResponseView;

    open spec fn deep_view(&self) -> UserResponseView {
        self@
    }
}

/// A user as the service shows it: identifier and instants as text, name and address as
/// they are. A user with an instant that has no text cannot be shown.
pub open spec fn shown_user(user: UserView) -> Option<UserResponseView> {
    match (user.created_at.text(), user.updated_at.text()) {
        (Some(created_at), Some(updated_at)) => Some(
            UserResponseView {
                id: id_text(user.id),
                name: user.name,
                email: user.email,
                created_at,
                updated_at,
            },
        ),
        _ => None,
    }
}

/// Mathematical value of a user that may have been shown.
pub open spec fn optional_response_view(response: Option<UserResponse>) -> Option<
    UserResponseView,
> {
    match response {
        Some(shown) => Some(shown@),
        None => None,
    }
}

/// A user as shown with the given texts for identifier and instants; none where an
/// instant has no text.
pub open spec fn shown_with(
    user: UserView,
    id: Seq<char>,
    created_at: Option<Seq<char>>,
    updated_at: Option<Seq<char>>,
) -> Option<UserResponseView> {
    match (created_at, updated_at) {
        (Some(created_at), Some(updated_at)) => Some(
            UserResponseView { id, name: user.name, email: user.email, created_at, updated_at },
        ),
        _ => None,
    }
}

/// Mathematical value of a text that may be absent.
pub open spec fn optional_text_view(text: Option<String>) -> Option<Seq<char>> {
    match text {
        Some(value) => Some(value@),
        None => None,
    }
}

impl UserResponse {
    /// Shows `user` with the given texts for its identifier and its instants; see
    /// [`shown_with`].
    pub fn from_texts(
        user: User,
        id: String,
        created_at: Option<String>,
        updated_at: Option<String>,
    ) -> (response: Option<UserResponse>)
        ensures
            optional_response_view(response) == shown_with(
                user@,
                id@,
                optional_text_view(created_at),
                optional_text_view(updated_at),
            ),
    {
        match (created_at, updated_at) {
            (Some(created_at), Some(updated_at)) => Some(
                UserResponse { id, name: user.name, email: user.email, created_at, updated_at },
            ),
            _ => None,
        }
    }

    /// Shows `user`; see [`shown_user`].
    pub fn from_user(user: User) -> (response: Option<UserResponse>)
        ensures
            optional_response_view(response) == shown_user(user@),
    {
        let id = user.id_string();
        let created_at = user.created_at.to_rfc3339();
        let updated_at = user.updated_at.to_rfc3339();
        Self::from_texts(user, id, created_at, updated_at)
    }
}

/// A message for the model, with the conversation that led to it.
#[derive(Debug, PartialEq, Eq)]
pub struct ChatRequest {
    /// The new message; a valid request has at least one character here.
    pub message: String,
    /// Earlier turns, oldest first; empty for a fresh conversation.
    pub history: Vec<ChatMessage>,
}

/// Mathematical value of a [`ChatRequest`].
pub struct ChatRequestView {
    pub message: Seq<char>,
    pub history: Seq<MessageView>,
}

impl View for ChatRequest {
    type V = ChatRequestView;

    open spec fn view(&self) -> ChatRequestView {
        ChatRequestView { message: self.message@, history: self.history.deep_view() }
    }
}

impl ChatRequest {
    /// Whether the request obeys its field rules: the message is not empty.
    pub open spec fn is_valid(&self) -> bool {
        self.message@.len() >= 1
    }

    /// What a caller is told when the request is not valid.
    pub open spec fn violation() -> Seq<char> {
        violation_text(MESSAGE_FIELD@, EMPTY_MESSAGE@)
    }

    /// Checks the field rules; the error is the rendered violation.
    pub fn validate(&self) -> (outcome: Result<(), String>)
        ensures
            outcome is Ok <==> self.is_valid(),
            outcome matches Err(detail) ==> detail@ == Self::violation(),
    {
        if has_min_length(self.message.as_str(), 1) {
            Ok(())
        } else {
            Err(describe_violation(MESSAGE_FIELD, LENGTH_RULE, EMPTY_MESSAGE))
        }
    }
}

/// A free-standing prompt for the model.
#[derive(Debug, PartialEq, Eq)]
pub struct GenerateRequest {
    /// The prompt; a valid request has at least one character here.
    pub prompt: String,
    /// Accepted and carried, but not passed on to the provider.
    pub max_tokens: Option<i32>,
}

/// Mathematical value of a [`GenerateRequest`].
pub struct GenerateRequestView {
    pub prompt: Seq<char>,
    pub max_tokens: Option<i32>,
}

impl View for GenerateRequest {
    type V = GenerateRequestView;

    open spec fn view(&self) -> GenerateRequestView {
        GenerateRequestView { prompt: self.prompt@, max_tokens: self.max_tokens }
    }
}

impl GenerateRequest {
    /// Whether the request obeys its field rules: the prompt is not empty.
    pub open spec fn is_valid(&self) -> bool {
        self.prompt@.len() >= 1
    }

    /// What a caller is told when the request is not valid.
    pub open spec fn violation() -> Seq<char> {
        violation_text(PROMPT_FIELD@, EMPTY_PROMPT@)
    }

    /// Checks the field rules; the error is the rendered violation.
    pub fn validate(&self) -> (outcome: Result<(), String>)
        ensures
            outcome is Ok <==> self.is_valid(),
            outcome matches Err(detail) ==> detail@ == Self::violation(),
    {
        if has_min_length(self.prompt.as_str(), 1) {
            Ok(())
        } else {
            Err(describe_violation(PROMPT_FIELD, LENGTH_RULE, EMPTY_PROMPT))
        }
    }
}

/// The model's reply to a chat request.
#[derive(Debug, PartialEq, Eq)]
pub struct ChatResponse {
    /// The reply text.
    pub response: String,
    /// Label of the model that wrote it.
    pub model: String,
}

/// Mathematical value of a [`ChatResponse`].
pub struct ChatResponseView {
    pub response: Seq<char>,
    pub model: Seq<char>,
}

impl View for ChatResponse {
    type V = ChatResponseView;

    open spec fn view(&self) -> ChatResponseView {
        ChatResponseView { response: self.response@, model: self.model@ }
    }
}

/// The model's text for a prompt.
#[derive(Debug, PartialEq, Eq)]
pub struct GenerateResponse {
    /// The generated text.
    pub text: String,
    /// Label of the model that wrote it.
    pub model: String,
}

/// Mathematical value of a [`GenerateResponse`].
pub struct GenerateResponseView {
    pub text: Seq<char>,
    pub model: Seq<char>,
}

impl View for GenerateResponse {
    type V = GenerateResponseView;

    open spec fn view(&self) -> GenerateResponseView {
        GenerateResponseView { text: self.text@, model: self.model@ }
    }
}

} // verus!
