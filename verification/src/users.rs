//! Lookups of users and the assignment of roles.

use vstd::prelude::*;
use crate::entity::User;
use crate::errors::{AppError, AppErrorView};
use crate::guard::has_role;
use crate::ids::{hyphenated, Uuid};
use crate::repository::{found_by_email, found_by_id, UserRepository};

verus! {

/// The message that reports an unknown user identifier.
pub open spec fn no_user_with_id(id: u128) -> Seq<char> {
    "User with id "@ + hyphenated(id) + " not found"@
}

/// The message that reports an unknown address.
pub open spec fn no_user_with_email(email: Seq<char>) -> Seq<char> {
    "User with email "@ + email + " not found"@
}

/// The message that reports a role that the user has already.
pub open spec fn role_already_held(role: Seq<char>) -> Seq<char> {
    "User already has role '"@ + role + "'"@
}

/// The message that reports a role that the user does not have.
pub open spec fn role_not_held(role: Seq<char>) -> Seq<char> {
    "User does not have role '"@ + role + "'"@
}

fn user_id_not_found(id: Uuid) -> (e: AppError)
    ensures
        e@ == AppErrorView::NotFound(no_user_with_id(id.value)),
{
    let mut message = String::from_str("User with id ");
    message.append(id.to_string().as_str());
    message.append(" not found");
    AppError::NotFound(message)
}

pub struct UserService<R: UserRepository> {
    pub user_repo: R,
}

impl<R: UserRepository> UserService<R> {
    pub fn new(user_repo: R) -> (service: Self)
        ensures
            service.user_repo == user_repo,
    {
        UserService { user_repo }
    }

    /// The user with this identifier; not found where there is none.
    pub fn find_user_by_id(&self, id: Uuid) -> (r: Result<User, AppError>)
        ensures
            self.user_repo.reliable() ==> (r is Ok <==> self.user_repo.users().contains_key(
                id.value,
            )),
            match r {
                Ok(user) => found_by_id(self.user_repo.users(), id.value, Some(user@)),
                Err(e) => {
                    ||| {
                        &&& e@ == AppErrorView::NotFound(no_user_with_id(id.value))
                        &&& !self.user_repo.users().contains_key(id.value)
                    }
                    ||| e@.is_fault() && !self.user_repo.reliable()
                },
            },
    {
        match self.user_repo.find_by_id(id)? {
            Some(user) => Ok(user),
            None => Err(user_id_not_found(id)),
        }
    }

    /// The user with this address; not found where there is none.
    pub fn find_user_by_email(&self, email: &str) -> (r: Result<User, AppError>)
        ensures
            match r {
                Ok(user) => found_by_email(self.user_repo.users(), email@, Some(user@)),
                Err(e) => {
                    ||| {
                        &&& e@ == AppErrorView::NotFound(no_user_with_email(email@))
                        &&& found_by_email(self.user_repo.users(), email@, None)
                    }
                    ||| e@.is_fault() && !self.user_repo.reliable()
                },
            },
    {
        match self.user_repo.find_by_email(email)? {
            Some(user) => Ok(user),
            None => {
                let mut message = String::from_str("User with email ");
                message.append(email);
                message.append(" not found");
                Err(AppError::NotFound(message))
            },
        }
    }

    /// Gives the user a role. An unknown user is not found; a role that the
    /// user holds already is a conflict.
    pub fn assign_role(&mut self, user_id: Uuid, role: &str) -> (r: Result<(), AppError>)
        ensures
            final(self).user_repo.reliable() == old(self).user_repo.reliable(),
            final(self).user_repo.users() == old(self).user_repo.users(),
            forall|u: u128|
                u != user_id.value ==> final(self).user_repo.roles_of(u) == old(
                    self,
                ).user_repo.roles_of(u),
            old(self).user_repo.reliable() && old(self).user_repo.users().contains_key(
                user_id.value,
            ) && !old(self).user_repo.roles_of(user_id.value).contains(role@) ==> (r is Ok <==> old(
                self,
            ).user_repo.known_role(role@)),
            match r {
                Ok(()) => {
                    &&& old(self).user_repo.users().contains_key(user_id.value)
                    &&& !old(self).user_repo.roles_of(user_id.value).contains(role@)
                    &&& old(self).user_repo.known_role(role@)
                    &&& final(self).user_repo.roles_of(user_id.value) == old(
                        self,
                    ).user_repo.roles_of(user_id.value).push(role@)
                },
                Err(e) => {
                    &&& final(self).user_repo.roles_of(user_id.value) == old(
                        self,
                    ).user_repo.roles_of(user_id.value)
                    &&& !old(self).user_repo.users().contains_key(user_id.value) && old(
                        self,
                    ).user_repo.reliable() ==> e@ == AppErrorView::NotFound(
                        no_user_with_id(user_id.value),
                    )
                    &&& old(self).user_repo.users().contains_key(user_id.value) && old(
                        self,
                    ).user_repo.roles_of(user_id.value).contains(role@) && old(
                        self,
                    ).user_repo.reliable() ==> e@ == AppErrorView::Conflict(
                        role_already_held(role@),
                    )
                },
            },
    {
        match self.user_repo.find_by_id(user_id)? {
            Some(_) => {},
            None => { return Err(user_id_not_found(user_id)); },
        }
        let roles = self.user_repo.get_roles(user_id)?;
        if has_role(&roles, role) {
            let mut message = String::from_str("User already has role '");
            message.append(role);
            message.append("'");
            return Err(AppError::Conflict(message));
        }
        self.user_repo.add_role(user_id, role)
    }

    /// Takes a role from the user. An unknown user is not found; a role
    /// that the user does not hold is a conflict.
    pub fn remove_role(&mut self, user_id: Uuid, role: &str) -> (r: Result<(), AppError>)
        ensures
            final(self).user_repo.reliable() == old(self).user_repo.reliable(),
            final(self).user_repo.users() == old(self).user_repo.users(),
            forall|u: u128|
                u != user_id.value ==> final(self).user_repo.roles_of(u) == old(
                    self,
                ).user_repo.roles_of(u),
            old(self).user_repo.reliable() && old(self).user_repo.users().contains_key(
                user_id.value,
            ) && old(self).user_repo.roles_of(user_id.value).contains(role@) ==> (r is Ok <==> old(
                self,
            ).user_repo.known_role(role@)),
            match r {
                Ok(()) => {
                    &&& old(self).user_repo.users().contains_key(user_id.value)
                    &&& old(self).user_repo.roles_of(user_id.value).contains(role@)
                    &&& old(self).user_repo.known_role(role@)
                    &&& final(self).user_repo.roles_of(user_id.value) == old(
                        self,
                    ).user_repo.roles_of(user_id.value).filter(|n: Seq<char>| n != role@)
                },
                Err(e) => {
                    &&& final(self).user_repo.roles_of(user_id.value) == old(
                        self,
                    ).user_repo.roles_of(user_id.value)
                    &&& !old(self).user_repo.users().contains_key(user_id.value) && old(
                        self,
                    ).user_repo.reliable() ==> e@ == AppErrorView::NotFound(
                        no_user_with_id(user_id.value),
                    )
                    &&& old(self).user_repo.users().contains_key(user_id.value) && !old(
                        self,
                    ).user_repo.roles_of(user_id.value).contains(role@) && old(
                        self,
                    ).user_repo.reliable() ==> e@ == AppErrorView::Conflict(role_not_held(role@))
                },
            },
    {
        match self.user_repo.find_by_id(user_id)? {
            Some(_) => {},
            None => { return Err(user_id_not_found(user_id)); },
        }
        let roles = self.user_repo.get_roles(user_id)?;
        if !has_role(&roles, role) {
            let mut message = String::from_str("User does not have role '");
            message.append(role);
            message.append("'");
            return Err(AppError::Conflict(message));
        }
        self.user_repo.remove_role(user_id, role)
    }
}

} // verus!
