//! The endpoints for users: what they decide before they ask the user service, and how
//! they show what the service answers.

use crate::dto::{
    is_user_violation_report, shown_user, CreateUserRequest, UpdateUserRequest, UserResponse,
    UserResponseView,
};
use crate::error::{AppError, ErrorView};
use crate::model::{User, UserView};
use crate::repository::UserRepository;
use crate::service::UserService;
use vstd::prelude::*;

verus! {

/// What the caller is told after a removal.
pub const USER_DELETED: &'static str = "User deleted";

/// Diagnostic of a user that cannot be shown.
pub const UNSHOWABLE_USER: &'static str = "timestamp out of range";

/// Whether `error` is a validation error whose diagnostic reports exactly the violations
/// at hand.
pub open spec fn is_user_violation(name_ok: bool, email_ok: bool, error: AppError) -> bool {
    error@ matches ErrorView::Validation(detail) && is_user_violation_report(
        name_ok,
        email_ok,
        detail,
    )
}

/// What an endpoint answers for a result of the service that holds a user: the user as
/// shown, the error as it is, or an internal error where the user cannot be shown.
pub open spec fn user_reply(result: Result<User, AppError>) -> Result<UserResponseView, ErrorView> {
    match result {
        Ok(user) => match shown_user(user@) {
            Some(shown) => Ok(shown),
            None => Err(ErrorView::Internal(UNSHOWABLE_USER@)),
        },
        Err(error) => Err(error@),
    }
}

/// Whether every user of the list can be shown.
pub open spec fn all_showable(users: Seq<UserView>) -> bool {
    forall|i: int| 0 <= i < users.len() ==> shown_user(#[trigger] users[i]) is Some
}

/// What an endpoint answers for a result of the service that holds a list of users: the
/// users as shown, in their order, the error as it is, or an internal error where one of
/// the users cannot be shown.
pub open spec fn users_reply(result: Result<Vec<User>, AppError>) -> Result<
    Seq<UserResponseView>,
    ErrorView,
> {
    match result {
        Ok(users) => if all_showable(users.deep_view()) {
            Ok(users.deep_view().map_values(|user: UserView| shown_user(user)->0))
        } else {
            Err(ErrorView::Internal(UNSHOWABLE_USER@))
        },
        Err(error) => Err(error@),
    }
}

/// Mathematical value of the answer of an endpoint that shows one user.
pub open spec fn user_reply_view(reply: Result<UserResponse, AppError>) -> Result<
    UserResponseView,
    ErrorView,
> {
    match reply {
        Ok(shown) => Ok(shown@),
        Err(error) => Err(error@),
    }
}

/// Mathematical value of the answer of an endpoint that shows a list of users.
pub open spec fn users_reply_view(reply: Result<Vec<UserResponse>, AppError>) -> Result<
    Seq<UserResponseView>,
    ErrorView,
> {
    match reply {
        Ok(shown) => Ok(shown.deep_view()),
        Err(error) => Err(error@),
    }
}

/// Shows what the service answered where the answer holds a user; see [`user_reply`].
pub fn show_user(result: Result<User, AppError>) -> (reply: Result<UserResponse, AppError>)
    ensures
        user_reply_view(reply) == user_reply(result),
{
    match result {
        Ok(user) => match UserResponse::from_user(user) {
            Some(shown) => Ok(shown),
            None => Err(AppError::Internal(String::from_str(UNSHOWABLE_USER))),
        },
        Err(error) => Err(error),
    }
}

/// Shows what the service answered where the answer holds a list of users; see
/// [`users_reply`].
pub fn show_users(result: Result<Vec<User>, AppError>) -> (reply: Result<
    Vec<UserResponse>,
    AppError,
>)
    ensures
        users_reply_view(reply) == users_reply(result),
{
    let users = match result {
        Ok(users) => users,
        Err(error) => {
            return Err(error);
        },
    };
    let ghost all = users.deep_view();
    let mut shown: Vec<UserResponse> = Vec::new();
    for user in it: users.into_iter()
        invariant
            (result matches Ok(list) && list.deep_view() == all),
            it.seq().len() == all.len(),
            forall|i: int| 0 <= i < all.len() ==> (#[trigger] it.seq()[i])@ == all[i],
            all_showable(all.take(it.index() as int)),
            shown.deep_view() == all.take(it.index() as int).map_values(
                |user: UserView| shown_user(user)->0,
            ),
    {
        let ghost done = it.index() as int;
        let ghost before = shown.deep_view();
        match UserResponse::from_user(user) {
            Some(response) => {
                shown.push(response);
                proof {
                    assert(all.take(done + 1) =~= all.take(done).push(all[done]));
                    assert(shown.deep_view() =~= before.push(shown_user(all[done])->0));
                    assert(all.take(done + 1).map_values(|user: UserView| shown_user(user)->0)
                        =~= before.push(shown_user(all[done])->0));
                    assert forall|i: int| 0 <= i < done + 1 implies shown_user(
                        #[trigger] all.take(done + 1)[i],
                    ) is Some by {
                        if i < done {
                            assert(all.take(done + 1)[i] == all.take(done)[i]);
                        }
                    }
                }
            },
            None => {
                assert(shown_user(all[done]) is None);
                assert(!all_showable(all));
                return Err(AppError::Internal(String::from_str(UNSHOWABLE_USER)));
            },
        }
    }
    assert(all.take(all.len() as int) =~= all);
    Ok(shown)
}

/// Every user, as shown.
pub fn get_users<R: UserRepository>(service: &UserService<R>) -> (reply: Result<
    Vec<UserResponse>,
    AppError,
>)
    ensures
        exists|result: Result<Vec<User>, AppError>|
            {
                &&& #[trigger] service.is_list_result(result)
                &&& users_reply_view(reply) == users_reply(result)
            },
{
    let result = service.get_users();
    let ghost witness = result;
    let reply = show_users(result);
    assert(service.is_list_result(witness));
    reply
}

/// The user with the given identifier, as shown.
pub fn get_user<R: UserRepository>(service: &UserService<R>, id: u128) -> (reply: Result<
    UserResponse,
    AppError,
>)
    ensures
        exists|result: Result<User, AppError>|
            {
                &&& #[trigger] service.is_lookup_result(id, result)
                &&& user_reply_view(reply) == user_reply(result)
            },
{
    let result = service.get_user(id);
    let ghost witness = result;
    let reply = show_user(result);
    assert(service.is_lookup_result(id, witness));
    reply
}

/// Registers a user and shows it. A request that is not valid is turned down with a
/// validation error before the service is asked.
pub fn create_user<R: UserRepository>(service: &UserService<R>, payload: CreateUserRequest) -> (reply:
    Result<UserResponse, AppError>)
    ensures
        payload.is_valid() ==> exists|result: Result<User, AppError>|
            {
                &&& #[trigger] service.is_create_result(payload, result)
                &&& user_reply_view(reply) == user_reply(result)
            },
        !payload.is_valid() ==> (reply matches Err(error) && is_user_violation(
            payload.name_is_valid(),
            payload.email_is_valid(),
            error,
        )),
{
    match payload.validate() {
        Err(detail) => Err(AppError::Validation(detail)),
        Ok(()) => {
            let result = service.create_user(payload);
            let ghost witness = result;
            let reply = show_user(result);
            assert(service.is_create_result(payload, witness));
            reply
        },
    }
}

/// Changes a user and shows it. A request that is not valid is turned down with a
/// validation error before the service is asked.
pub fn update_user<R: UserRepository>(
    service: &UserService<R>,
    id: u128,
    payload: UpdateUserRequest,
) -> (reply: Result<UserResponse, AppError>)
    ensures
        payload.is_valid() ==> exists|result: Result<User, AppError>|
            {
                &&& #[trigger] service.is_update_result(id, payload, result)
                &&& user_reply_view(reply) == user_reply(result)
            },
        !payload.is_valid() ==> (reply matches Err(error) && is_user_violation(
            payload.name_is_valid(),
            payload.email_is_valid(),
            error,
        )),
{
    match payload.validate() {
        Err(detail) => Err(AppError::Validation(detail)),
        Ok(()) => {
            let result = service.update_user(id, payload);
            let ghost witness = result;
            let reply = show_user(result);
            assert(service.is_update_result(id, payload, witness));
            reply
        },
    }
}

/// Removes a user; the answer is what the caller is told after a removal.
pub fn delete_user<R: UserRepository>(service: &UserService<R>, id: u128) -> (reply: Result<
    &'static str,
    AppError,
>)
    ensures
        exists|result: Result<(), AppError>|
            {
                &&& #[trigger] service.is_removal_result(id, result)
                &&& match result {
                    Ok(_) => reply == Ok::<&'static str, AppError>(USER_DELETED),
                    Err(error) => reply == Err::<&'static str, AppError>(error),
                }
            },
{
    let result = service.delete_user(id);
    let ghost witness = result;
    assert(service.is_removal_result(id, witness));
    match result {
        Ok(_) => Ok(USER_DELETED),
        Err(error) => Err(error),
    }
}

} // verus!
