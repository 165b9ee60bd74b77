//! User operations: ids must be syntactically valid UUID strings, emails are
//! trimmed and must be non-empty; everything else is delegated to the
//! repository.

use vstd::prelude::*;
use vstd::string::StringExecFns;

use crate::ident::{fresh_id, is_valid_uuid, uuid_ok};
use crate::model::error::{AppError, AppErrorCode};
use crate::model::user::{User, UserView};
use crate::repository::registry::{
    first_match, user_emails, user_ids, user_not_found_msg, Repository,
};
use crate::service::registry::Service;
use crate::text::{trim, trim_spec};

verus! {

pub struct CreateUser {
    pub email: String,
}

pub struct UpdateUser {
    pub email: String,
}

impl<R: Repository> Service<R> {
    /// Create a user under a fresh random id: the email is trimmed, an
    /// empty result is rejected, and the store is upserted by email, so a
    /// record already carrying the email comes back unchanged.
    pub fn add_user(&mut self, payload: CreateUser) -> (r: Result<User, AppError>)
        ensures
            ({
                let t = trim_spec(payload.email@);
                if t.len() == 0 {
                    &&& r matches Err(e) && e.code is InvalidInput && e.message@
                        == "Email is required"@
                    &&& *final(self) == *old(self)
                } else {
                    let i = first_match(user_emails(old(self).repo.users()), t);
                    &&& final(self).repo.items() == old(self).repo.items()
                    &&& r matches Ok(u) && if i >= 0 {
                        &&& u@ == old(self).repo.users()[i]
                        &&& final(self).repo.users() == old(self).repo.users()
                    } else {
                        &&& u@.email == t
                        &&& u@.id.len() == 36
                        &&& uuid_ok(u@.id)
                        &&& final(self).repo.users() == old(self).repo.users().push(u@)
                    }
                }
            }),
    {
        let email = trim(payload.email.as_str());
        if email.as_str().is_empty() {
            return Err(
                AppError {
                    code: AppErrorCode::InvalidInput,
                    message: String::from_str("Email is required"),
                },
            );
        }
        let user = User { id: fresh_id(), email };
        self.repo.add_user(user)
    }

    pub fn list_user(&self) -> (r: Result<Vec<User>, AppError>)
        ensures
            r matches Ok(v) && v@.map_values(|u: User| u@) == self.repo.users(),
    {
        self.repo.list_user()
    }

    /// Fetch the user carrying `id`; an id that is empty or not a
    /// syntactically valid UUID is rejected before storage is consulted.
    pub fn get_user(&self, id: &str) -> (r: Result<User, AppError>)
        ensures
            ({
                if id@.len() == 0 || !uuid_ok(id@) {
                    r matches Err(e) && e.code is InvalidInput && e.message@
                        == "Invalid user ID format"@
                } else {
                    let i = first_match(user_ids(self.repo.users()), id@);
                    match r {
                        Ok(u) => i >= 0 && u@ == self.repo.users()[i],
                        Err(e) => i == -1 && e.code is NotFound && e.message@
                            == user_not_found_msg(id@),
                    }
                }
            }),
    {
        if id.is_empty() || !is_valid_uuid(id) {
            return Err(
                AppError {
                    code: AppErrorCode::InvalidInput,
                    message: String::from_str("Invalid user ID format"),
                },
            );
        }
        self.repo.get_user(id)
    }

    /// Change the email of the user carrying `id`; the id must be a valid
    /// UUID string and the trimmed email non-empty.
    pub fn update_user(&mut self, id: &str, payload: UpdateUser) -> (r: Result<User, AppError>)
        ensures
            ({
                let t = trim_spec(payload.email@);
                if id@.len() == 0 || !uuid_ok(id@) {
                    &&& r matches Err(e) && e.code is InvalidInput && e.message@
                        == "Invalid user ID format"@
                    &&& *final(self) == *old(self)
                } else if t.len() == 0 {
                    &&& r matches Err(e) && e.code is InvalidInput && e.message@
                        == "Email cannot be empty"@
                    &&& *final(self) == *old(self)
                } else {
                    let i = first_match(user_ids(old(self).repo.users()), id@);
                    &&& final(self).repo.items() == old(self).repo.items()
                    &&& match r {
                        Ok(u) => {
                            &&& i >= 0
                            &&& u@ == (UserView { id: id@, email: t })
                            &&& final(self).repo.users() == old(self).repo.users().update(
                                i,
                                UserView { id: id@, email: t },
                            )
                        },
                        Err(e) => {
                            &&& i == -1
                            &&& final(self).repo.users() == old(self).repo.users()
                            &&& e.code is NotFound
                            &&& e.message@ == user_not_found_msg(id@)
                        },
                    }
                }
            }),
    {
        if id.is_empty() || !is_valid_uuid(id) {
            return Err(
                AppError {
                    code: AppErrorCode::InvalidInput,
                    message: String::from_str("Invalid user ID format"),
                },
            );
        }
        let email = trim(payload.email.as_str());
        if email.as_str().is_empty() {
            return Err(
                AppError {
                    code: AppErrorCode::InvalidInput,
                    message: String::from_str("Email cannot be empty"),
                },
            );
        }
        self.repo.update_user(id, email)
    }

    /// Remove the user carrying `id`; the id must be a valid UUID string.
    pub fn delete_user(&mut self, id: &str) -> (r: Result<(), AppError>)
        ensures
            ({
                if id@.len() == 0 || !uuid_ok(id@) {
                    &&& r matches Err(e) && e.code is InvalidInput && e.message@
                        == "Invalid user ID format"@
                    &&& *final(self) == *old(self)
                } else {
                    let i = first_match(user_ids(old(self).repo.users()), id@);
                    &&& final(self).repo.items() == old(self).repo.items()
                    &&& match r {
                        Ok(_) => i >= 0 && final(self).repo.users() == old(
                            self,
                        ).repo.users().remove(i),
                        Err(e) => {
                            &&& i == -1
                            &&& final(self).repo.users() == old(self).repo.users()
                            &&& e.code is NotFound
                            &&& e.message@ == user_not_found_msg(id@)
                        },
                    }
                }
            }),
    {
        if id.is_empty() || !is_valid_uuid(id) {
            return Err(
                AppError {
                    code: AppErrorCode::InvalidInput,
                    message: String::from_str("Invalid user ID format"),
                },
            );
        }
        self.repo.delete_user(id)
    }
}

} // verus!
