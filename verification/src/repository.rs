//! The store of user records, as the user service sees it.

use crate::model::User;
use std::sync::Arc;
use vstd::prelude::*;

verus! {

/// A store of user records. Every operation either succeeds or fails with the store's own
/// diagnostic; the service depends on this capability alone.
pub trait UserRepository: Send + Sync {
    /// Every record.
    fn find_all(&self) -> Result<Vec<User>, String>;

    /// The record with the given identifier, if there is one.
    fn find_by_id(&self, id: u128) -> Result<Option<User>, String>;

    /// Stores a new record and returns it.
    fn create(&self, name: String, email: String) -> Result<User, String>;

    /// Overwrites name and address of the record with the given identifier and returns
    /// the record.
    fn update(&self, id: u128, name: String, email: String) -> Result<User, String>;

    /// Removes the record with the given identifier; the answer says whether there was
    /// one.
    fn delete(&self, id: u128) -> Result<bool, String>;
}

impl<R: UserRepository> UserRepository for Arc<R> {
    fn find_all(&self) -> (found: Result<Vec<User>, String>)
        ensures
            call_ensures(R::find_all, (&**self,), found),
    {
        (**self).find_all()
    }

    fn find_by_id(&self, id: u128) -> (found: Result<Option<User>, String>)
        ensures
            call_ensures(R::find_by_id, (&**self, id), found),
    {
        (**self).find_by_id(id)
    }

    fn create(&self, name: String, email: String) -> (created: Result<User, String>)
        ensures
            call_ensures(R::create, (&**self, name, email), created),
    {
        (**self).create(name, email)
    }

    fn update(&self, id: u128, name: String, email: String) -> (updated: Result<User, String>)
        ensures
            call_ensures(R::update, (&**self, id, name, email), updated),
    {
        (**self).update(id, name, email)
    }

    fn delete(&self, id: u128) -> (deleted: Result<bool, String>)
        ensures
            call_ensures(R::delete, (&**self, id), deleted),
    {
        (**self).delete(id)
    }
}

} // verus!
