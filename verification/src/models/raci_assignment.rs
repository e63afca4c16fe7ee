//! A RACI assignment: the one role a user holds for a task.

use crate::models::raci_role::RaciRole;
use crate::error::EngineError;
use crate::models::user::User;
use crate::store::Store;
use vstd::prelude::*;

verus! {

/// At most one assignment exists for a pair of user and task.
#[derive(Clone, Copy, Debug, PartialEq, Eq, Structural)]
pub struct RaciAssignment {
    pub user_id: u128,
    pub task_id: u128,
    pub role: RaciRole,
}

impl RaciAssignment {
    /// Whether this is the assignment of `user_id` for `task_id`.
    pub open spec fn pairs(self, user_id: u128, task_id: u128) -> bool {
        self.user_id == user_id && self.task_id == task_id
    }

    pub fn role(&self) -> (role: RaciRole)
        ensures
            role == self.role,
    {
        self.role
    }

    /// The user who holds the role.
    pub fn user(&self, store: &Store) -> (found: Result<User, EngineError>)
        requires
            store.wf(),
        ensures
            match found {
                Ok(user) => store@.has_user(self.user_id) && user@ == store@.user(self.user_id),
                Err(error) => error == EngineError::NotFound && !store@.has_user(self.user_id),
            },
    {
        match store.user(self.user_id) {
            Some(user) => Ok(user),
            None => Err(EngineError::NotFound),
        }
    }
}

} // verus!
