//! The user service: what it asks of the store, and what it makes of the store's answers.

use crate::dto::{CreateUserRequest, UpdateUserRequest};
use crate::error::AppError;
use crate::model::User;
use crate::repository::UserRepository;
use vstd::prelude::*;

verus! {

/// What the service makes of an answer of the store: the answer itself, or a database
/// error that carries the store's diagnostic.
pub open spec fn stored<T>(answer: Result<T, String>) -> Result<T, AppError> {
    match answer {
        Ok(value) => Ok(value),
        Err(detail) => Err(AppError::Database(detail)),
    }
}

/// What the service makes of a lookup: the record, a not-found error where there is no
/// record, or a database error.
pub open spec fn found(lookup: Result<Option<User>, String>) -> Result<User, AppError> {
    match lookup {
        Ok(Some(user)) => Ok(user),
        Ok(None) => Err(AppError::NotFound),
        Err(detail) => Err(AppError::Database(detail)),
    }
}

/// What the service makes of a removal: success where a record was removed, a not-found
/// error where there was none, or a database error.
pub open spec fn removed(removal: Result<bool, String>) -> Result<(), AppError> {
    match removal {
        Ok(true) => Ok(()),
        Ok(false) => Err(AppError::NotFound),
        Err(detail) => Err(AppError::Database(detail)),
    }
}

/// The value of a field after an update: the new value where one is given, the current
/// one where none is.
pub open spec fn merged(change: Option<String>, current: String) -> String {
    match change {
        Some(value) => value,
        None => current,
    }
}

/// The user service. It holds nothing but its store.
pub struct UserService<R: UserRepository> {
    repository: R,
}

impl<R: UserRepository + Clone> Clone for UserService<R> {
    fn clone(&self) -> (copy: Self) {
        UserService { repository: self.repository.clone() }
    }
}

impl<R: UserRepository> UserService<R> {
    /// The store that this service asks.
    pub closed spec fn repository(&self) -> R {
        self.repository
    }

    /// Whether `result` is what the service makes of an answer of the store to the
    /// request for every record.
    pub open spec fn is_list_result(&self, result: Result<Vec<User>, AppError>) -> bool {
        exists|answer: Result<Vec<User>, String>|
            {
                &&& #[trigger] call_ensures(R::find_all, (&self.repository(),), answer)
                &&& result == stored(answer)
            }
    }

    /// Whether `result` is what the service makes of an answer of the store to the lookup
    /// of `id`.
    pub open spec fn is_lookup_result(&self, id: u128, result: Result<User, AppError>) -> bool {
        exists|lookup: Result<Option<User>, String>|
            {
                &&& #[trigger] call_ensures(R::find_by_id, (&self.repository(), id), lookup)
                &&& result == found(lookup)
            }
    }

    /// Whether `result` is what the service makes of an answer of the store to the
    /// registration of a user with the name and address of `input`.
    pub open spec fn is_create_result(
        &self,
        input: CreateUserRequest,
        result: Result<User, AppError>,
    ) -> bool {
        exists|answer: Result<User, String>|
            {
                &&& #[trigger] call_ensures(
                    R::create,
                    (&self.repository(), input.name, input.email),
                    answer,
                )
                &&& result == stored(answer)
            }
    }

    /// Whether `result` is what the service makes of the answers of the store to an
    /// update of `id` by `input`. The user is looked up first. Where the lookup fails,
    /// its error is the result and nothing is written. Where it succeeds, the store is
    /// asked to write, for name and address each, what `input` gives, or what the record
    /// holds where `input` gives nothing.
    pub open spec fn is_update_result(
        &self,
        id: u128,
        input: UpdateUserRequest,
        result: Result<User, AppError>,
    ) -> bool {
        exists|lookup: Result<Option<User>, String>|
            {
                &&& #[trigger] call_ensures(R::find_by_id, (&self.repository(), id), lookup)
                &&& match found(lookup) {
                    Err(error) => result == Err::<User, AppError>(error),
                    Ok(user) => exists|answer: Result<User, String>|
                        {
                            &&& #[trigger] call_ensures(
                                R::update,
                                (
                                    &self.repository(),
                                    id,
                                    merged(input.name, user.name),
                                    merged(input.email, user.email),
                                ),
                                answer,
                            )
                            &&& result == stored(answer)
                        },
                }
            }
    }

    /// Whether `result` is what the service makes of an answer of the store to the
    /// removal of `id`.
    pub open spec fn is_removal_result(&self, id: u128, result: Result<(), AppError>) -> bool {
        exists|removal: Result<bool, String>|
            {
                &&& #[trigger] call_ensures(R::delete, (&self.repository(), id), removal)
                &&& result == removed(removal)
            }
    }

    /// A service on top of `repository`.
    pub fn new(repository: R) -> (service: Self)
        ensures
            service.repository() == repository,
    {
        UserService { repository }
    }

    /// See [`stored`].
    pub fn from_store<T>(answer: Result<T, String>) -> (result: Result<T, AppError>)
        ensures
            result == stored(answer),
    {
        match answer {
            Ok(value) => Ok(value),
            Err(detail) => Err(AppError::Database(detail)),
        }
    }

    /// See [`found`].
    pub fn from_lookup(lookup: Result<Option<User>, String>) -> (result: Result<User, AppError>)
        ensures
            result == found(lookup),
    {
        match lookup {
            Ok(Some(user)) => Ok(user),
            Ok(None) => Err(AppError::NotFound),
            Err(detail) => Err(AppError::Database(detail)),
        }
    }

    /// See [`removed`].
    pub fn from_removal(removal: Result<bool, String>) -> (result: Result<(), AppError>)
        ensures
            result == removed(removal),
    {
        match removal {
            Ok(true) => Ok(()),
            Ok(false) => Err(AppError::NotFound),
            Err(detail) => Err(AppError::Database(detail)),
        }
    }

    /// Every user.
    pub fn get_users(&self) -> (result: Result<Vec<User>, AppError>)
        ensures
            self.is_list_result(result),
    {
        let answer = self.repository.find_all();
        let ghost witness = answer;
        let result = Self::from_store(answer);
        assert(call_ensures(R::find_all, (&self.repository(),), witness));
        result
    }

    /// The user with the given identifier.
    pub fn get_user(&self, id: u128) -> (result: Result<User, AppError>)
        ensures
            self.is_lookup_result(id, result),
    {
        let lookup = self.repository.find_by_id(id);
        let ghost witness = lookup;
        let result = Self::from_lookup(lookup);
        assert(call_ensures(R::find_by_id, (&self.repository(), id), witness));
        result
    }

    /// Registers a user with the name and address of `input`.
    pub fn create_user(&self, input: CreateUserRequest) -> (result: Result<User, AppError>)
        ensures
            self.is_create_result(input, result),
    {
        let answer = self.repository.create(input.name, input.email);
        let ghost witness = answer;
        let result = Self::from_store(answer);
        assert(call_ensures(R::create, (&self.repository(), input.name, input.email), witness));
        result
    }

    /// Changes name and address of the user with the given identifier: each becomes what
    /// `input` gives for it, and stays as it is where `input` gives nothing. The user is
    /// looked up first; where the lookup fails, its error is the result and nothing is
    /// written.
    pub fn update_user(&self, id: u128, input: UpdateUserRequest) -> (result: Result<
        User,
        AppError,
    >)
        ensures
            self.is_update_result(id, input, result),
    {
        let lookup = self.repository.find_by_id(id);
        let ghost looked_up = lookup;
        assert(call_ensures(R::find_by_id, (&self.repository(), id), looked_up));
        match Self::from_lookup(lookup) {
            Err(error) => Err(error),
            Ok(user) => {
                let name = match input.name {
                    Some(value) => value,
                    None => user.name,
                };
                let email = match input.email {
                    Some(value) => value,
                    None => user.email,
                };
                let answer = self.repository.update(id, name, email);
                let ghost witness = answer;
                let result = Self::from_store(answer);
                assert(call_ensures(
                    R::update,
                    (&self.repository(), id, name, email),
                    witness,
                ));
                result
            },
        }
    }

    /// Removes the user with the given identifier.
    pub fn delete_user(&self, id: u128) -> (result: Result<(), AppError>)
        ensures
            self.is_removal_result(id, result),
    {
        let removal = self.repository.delete(id);
        let ghost witness = removal;
        let result = Self::from_removal(removal);
        assert(call_ensures(R::delete, (&self.repository(), id), witness));
        result
    }
}

} // verus!
