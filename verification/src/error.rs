//! The error taxonomy shared by every layer of the pipeline, and how an error is
//! reported to the caller of the service.

use vstd::prelude::*;

verus! {

/// What can go wrong while serving a request.
#[derive(Debug, PartialEq, Eq)]
pub enum AppError {
    /// The persistence store failed; the payload is the store's diagnostic.
    Database(String),
    /// The caller's input broke a rule; the payload names the field and the rule.
    Validation(String),
    /// The addressed record does not exist.
    NotFound,
    /// An unexpected failure inside the service; the payload is its diagnostic.
    Internal(String),
    /// The generative-text provider could not be reached, refused the call, or answered
    /// with something unusable; the payload is the diagnostic.
    ExternalService(String),
}

/// Mathematical value of an [`AppError`].
pub enum ErrorView {
    Database(Seq<char>),
    Validation(Seq<char>),
    NotFound,
    Internal(Seq<char>),
    ExternalService(Seq<char>),
}

impl View for AppError {
    type V = ErrorView;

    open spec fn view(&self) -> ErrorView {
        match self {
            AppError::Database(detail) => ErrorView::Database(detail@),
            AppError::Validation(detail) => ErrorView::Validation(detail@),
            AppError::NotFound => ErrorView::NotFound,
            AppError::Internal(detail) => ErrorView::Internal(detail@),
            AppError::ExternalService(detail) => ErrorView::ExternalService(detail@),
        }
    }
}

/// Mathematical value of a text-or-error result.
pub open spec fn text_result_view(result: Result<String, AppError>) -> Result<
    Seq<char>,
    ErrorView,
> {
    match result {
        Ok(text) => Ok(text@),
        Err(error) => Err(error@),
    }
}

/// What the caller is told about a failed store access.
pub const DATABASE_FAILURE_MESSAGE: &'static str = "Database error";

/// What the caller is told about a missing record.
pub const NOT_FOUND_MESSAGE: &'static str = "Resource not found";

/// What the caller is told about an unexpected failure.
pub const INTERNAL_FAILURE_MESSAGE: &'static str = "Internal server error";

/// Status code of a malformed request.
pub const STATUS_BAD_REQUEST: u16 = 400;

/// Status code of a missing record.
pub const STATUS_NOT_FOUND: u16 = 404;

/// Status code of a failure inside the service.
pub const STATUS_INTERNAL_SERVER_ERROR: u16 = 500;

/// Status code of a failure of the provider behind the service.
pub const STATUS_BAD_GATEWAY: u16 = 502;

/// Status code under which `error` is reported.
pub open spec fn status_of(error: ErrorView) -> u16 {
    match error {
        ErrorView::Database(_) => STATUS_INTERNAL_SERVER_ERROR,
        ErrorView::Validation(_) => STATUS_BAD_REQUEST,
        ErrorView::NotFound => STATUS_NOT_FOUND,
        ErrorView::Internal(_) => STATUS_INTERNAL_SERVER_ERROR,
        ErrorView::ExternalService(_) => STATUS_BAD_GATEWAY,
    }
}

/// Message under which `error` is reported: the diagnostic itself where the caller or the
/// provider caused the failure, a fixed sentence that hides it otherwise.
pub open spec fn reported_message_of(error: ErrorView) -> Seq<char> {
    match error {
        ErrorView::Database(_) => DATABASE_FAILURE_MESSAGE@,
        ErrorView::Validation(detail) => detail,
        ErrorView::NotFound => NOT_FOUND_MESSAGE@,
        ErrorView::Internal(_) => INTERNAL_FAILURE_MESSAGE@,
        ErrorView::ExternalService(detail) => detail,
    }
}

/// One-line description of `error`, as it appears in logs and in query results.
pub open spec fn description_of(error: ErrorView) -> Seq<char> {
    match error {
        ErrorView::Database(detail) => "Database error: "@ + detail,
        ErrorView::Validation(detail) => "Validation error: "@ + detail,
        ErrorView::NotFound => "User not found"@,
        ErrorView::Internal(_) => "Internal server error"@,
        ErrorView::ExternalService(detail) => "External service error: "@ + detail,
    }
}

impl AppError {
    /// Status code of the response that reports this error.
    pub fn status_code(&self) -> (code: u16)
        ensures
            code == status_of(self@),
    {
        match self {
            AppError::Database(_) => STATUS_INTERNAL_SERVER_ERROR,
            AppError::Validation(_) => STATUS_BAD_REQUEST,
            AppError::NotFound => STATUS_NOT_FOUND,
            AppError::Internal(_) => STATUS_INTERNAL_SERVER_ERROR,
            AppError::ExternalService(_) => STATUS_BAD_GATEWAY,
        }
    }

    /// Message of the response that reports this error.
    pub fn reported_message(&self) -> (message: String)
        ensures
            message@ == reported_message_of(self@),
    {
        match self {
            AppError::Database(_) => String::from_str(DATABASE_FAILURE_MESSAGE),
            AppError::Validation(detail) => detail.clone(),
            AppError::NotFound => String::from_str(NOT_FOUND_MESSAGE),
            AppError::Internal(_) => String::from_str(INTERNAL_FAILURE_MESSAGE),
            AppError::ExternalService(detail) => detail.clone(),
        }
    }

    /// One-line description of this error.
    pub fn to_string(&self) -> (text: String)
        ensures
            text@ == description_of(self@),
    {
        match self {
            AppError::Database(detail) => String::from_str("Database error: ").concat(
                detail.as_str(),
            ),
            AppError::Validation(detail) => String::from_str("Validation error: ").concat(
                detail.as_str(),
            ),
            AppError::NotFound => String::from_str("User not found"),
            AppError::Internal(_) => String::from_str("Internal server error"),
            AppError::ExternalService(detail) => String::from_str(
                "External service error: ",
            ).concat(detail.as_str()),
        }
    }
}

impl Clone for AppError {
    fn clone(&self) -> (copy: AppError)
        ensures
            copy@ == self@,
    {
        match self {
            AppError::Database(detail) => AppError::Database(detail.clone()),
            AppError::Validation(detail) => AppError::Validation(detail.clone()),
            AppError::NotFound => AppError::NotFound,
            AppError::Internal(detail) => AppError::Internal(detail.clone()),
            AppError::ExternalService(detail) => AppError::ExternalService(detail.clone()),
        }
    }
}

} // verus!
