//! The answers of the query interface. Here a missing user is an absent value, not an
//! error, and every error is told by its description.

use crate::ai_repository::AIRepository;
use crate::ai_service::AIService;
use crate::dto::{
    is_user_violation_report, ChatRequest, ChatResponse, CreateUserRequest, GenerateRequest,
    GenerateResponse, UpdateUserRequest,
};
use crate::error::{description_of, AppError};
use crate::model::User;
use crate::repository::UserRepository;
use crate::service::UserService;
use vstd::prelude::*;

verus! {

/// Mathematical value of an answer whose error is a text.
pub open spec fn answer_view<T>(answer: Result<T, String>) -> Result<T, Seq<char>> {
    match answer {
        Ok(value) => Ok(value),
        Err(text) => Err(text@),
    }
}

/// The answer to a query for one user: the user, nothing where there is no such user, or
/// the description of the error.
pub open spec fn user_answer(result: Result<User, AppError>) -> Result<Option<User>, Seq<char>> {
    match result {
        Ok(user) => Ok(Some(user)),
        Err(AppError::NotFound) => Ok(None),
        Err(error) => Err(description_of(error@)),
    }
}

/// The answer to a removal: whether a user was removed, or the description of the error.
pub open spec fn removal_answer(result: Result<(), AppError>) -> Result<bool, Seq<char>> {
    match result {
        Ok(_) => Ok(true),
        Err(AppError::NotFound) => Ok(false),
        Err(error) => Err(description_of(error@)),
    }
}

/// The answer to any other query: the value, or the description of the error.
pub open spec fn plain_answer<T>(result: Result<T, AppError>) -> Result<T, Seq<char>> {
    match result {
        Ok(value) => Ok(value),
        Err(error) => Err(description_of(error@)),
    }
}

/// See [`user_answer`].
pub fn answer_user(result: Result<User, AppError>) -> (answer: Result<Option<User>, String>)
    ensures
        answer_view(answer) == user_answer(result),
{
    match result {
        Ok(user) => Ok(Some(user)),
        Err(AppError::NotFound) => Ok(None),
        Err(error) => Err(error.to_string()),
    }
}

/// See [`removal_answer`].
pub fn answer_removal(result: Result<(), AppError>) -> (answer: Result<bool, String>)
    ensures
        answer_view(answer) == removal_answer(result),
{
    match result {
        Ok(_) => Ok(true),
        Err(AppError::NotFound) => Ok(false),
        Err(error) => Err(error.to_string()),
    }
}

/// See [`plain_answer`].
pub fn answer_plain<T>(result: Result<T, AppError>) -> (answer: Result<T, String>)
    ensures
        answer_view(answer) == plain_answer(result),
{
    match result {
        Ok(value) => Ok(value),
        Err(error) => Err(error.to_string()),
    }
}

/// The queries.
pub struct QueryRoot;

/// The mutations.
pub struct MutationRoot;

impl QueryRoot {
    /// Every user.
    pub fn users<R: UserRepository>(&self, service: &UserService<R>) -> (answer: Result<
        Vec<User>,
        String,
    >)
        ensures
            exists|result: Result<Vec<User>, AppError>|
                {
                    &&& #[trigger] service.is_list_result(result)
                    &&& answer_view(answer) == plain_answer(result)
                },
    {
        let result = service.get_users();
        let ghost witness = result;
        let answer = answer_plain(result);
        assert(service.is_list_result(witness));
        answer
    }

    /// The user with the given identifier, or nothing where there is none.
    pub fn user<R: UserRepository>(&self, service: &UserService<R>, id: u128) -> (answer: Result<
        Option<User>,
        String,
    >)
        ensures
            exists|result: Result<User, AppError>|
                {
                    &&& #[trigger] service.is_lookup_result(id, result)
                    &&& answer_view(answer) == user_answer(result)
                },
    {
        let result = service.get_user(id);
        let ghost witness = result;
        let answer = answer_user(result);
        assert(service.is_lookup_result(id, witness));
        answer
    }
}

impl MutationRoot {
    /// Registers a user. A request that is not valid is answered with the report of its
    /// violations, and the service is not asked.
    pub fn create_user<R: UserRepository>(
        &self,
        service: &UserService<R>,
        input: CreateUserRequest,
    ) -> (answer: Result<User, String>)
        ensures
            input.is_valid() ==> exists|result: Result<User, AppError>|
                {
                    &&& #[trigger] service.is_create_result(input, result)
                    &&& answer_view(answer) == plain_answer(result)
                },
            !input.is_valid() ==> (answer matches Err(detail) && is_user_violation_report(
                input.name_is_valid(),
                input.email_is_valid(),
                detail@,
            )),
    {
        match input.validate() {
            Err(detail) => Err(detail),
            Ok(()) => {
                let result = service.create_user(input);
                let ghost witness = result;
                let answer = answer_plain(result);
                assert(service.is_create_result(input, witness));
                answer
            },
        }
    }

    /// Changes a user. A request that is not valid is answered with the report of its
    /// violations, and the service is not asked.
    pub fn update_user<R: UserRepository>(
        &self,
        service: &UserService<R>,
        id: u128,
        input: UpdateUserRequest,
    ) -> (answer: Result<User, String>)
        ensures
            input.is_valid() ==> exists|result: Result<User, AppError>|
                {
                    &&& #[trigger] service.is_update_result(id, input, result)
                    &&& answer_view(answer) == plain_answer(result)
                },
            !input.is_valid() ==> (answer matches Err(detail) && is_user_violation_report(
                input.name_is_valid(),
                input.email_is_valid(),
                detail@,
            )),
    {
        match input.validate() {
            Err(detail) => Err(detail),
            Ok(()) => {
                let result = service.update_user(id, input);
                let ghost witness = result;
                let answer = answer_plain(result);
                assert(service.is_update_result(id, input, witness));
                answer
            },
        }
    }

    /// Removes a user; the answer says whether there was one.
    pub fn delete_user<R: UserRepository>(&self, service: &UserService<R>, id: u128) -> (answer:
        Result<bool, String>)
        ensures
            exists|result: Result<(), AppError>|
                {
                    &&& #[trigger] service.is_removal_result(id, result)
                    &&& answer_view(answer) == removal_answer(result)
                },
    {
        let result = service.delete_user(id);
        let ghost witness = result;
        let answer = answer_removal(result);
        assert(service.is_removal_result(id, witness));
        answer
    }

    /// Answers a chat request. A request that is not valid is answered with its
    /// violation, and the service is not asked.
    pub fn chat<R: AIRepository>(&self, service: &AIService<R>, input: ChatRequest) -> (answer:
        Result<ChatResponse, String>)
        ensures
            input.is_valid() ==> exists|result: Result<ChatResponse, AppError>|
                {
                    &&& #[trigger] service.is_chat_result(input, result)
                    &&& answer_view(answer) == plain_answer(result)
                },
            !input.is_valid() ==> (answer matches Err(detail) && detail@
                == ChatRequest::violation()),
    {
        match input.validate() {
            Err(detail) => Err(detail),
            Ok(()) => {
                let result = service.chat(input);
                let ghost witness = result;
                let answer = answer_plain(result);
                assert(service.is_chat_result(input, witness));
                answer
            },
        }
    }

    /// Answers a generation request. A request that is not valid is answered with its
    /// violation, and the service is not asked.
    pub fn generate<R: AIRepository>(
        &self,
        service: &AIService<R>,
        input: GenerateRequest,
    ) -> (answer: Result<GenerateResponse, String>)
        ensures
            input.is_valid() ==> exists|result: Result<GenerateResponse, AppError>|
                {
                    &&& #[trigger] service.is_generate_result(input, result)
                    &&& answer_view(answer) == plain_answer(result)
                },
            !input.is_valid() ==> (answer matches Err(detail) && detail@
                == GenerateRequest::violation()),
    {
        match input.validate() {
            Err(detail) => Err(detail),
            Ok(()) => {
                let result = service.generate(input);
                let ghost witness = result;
                let answer = answer_plain(result);
                assert(service.is_generate_result(input, witness));
                answer
            },
        }
    }
}

} // verus!
