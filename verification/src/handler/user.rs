//! User handlers: each one calls the corresponding service operation and
//! wraps the outcome in the uniform envelope, with the operation's success
//! message and status code, or the error's own.

use vstd::prelude::*;
use vstd::string::StringExecFns;

use crate::handler::common::error_response;
use crate::ident::uuid_ok;
use crate::model::http::Response;
use crate::model::user::{User, UserView};
use crate::repository::registry::{
    first_match, user_emails, user_ids, user_not_found_msg, Repository,
};
use crate::service::registry::Service;
use crate::service::user::{CreateUser, UpdateUser};
use crate::text::trim_spec;

verus! {

pub fn add_user<R: Repository>(
    service: &mut Service<R>,
    correlation_id: String,
    payload: CreateUser,
) -> (r: (u16, Response<User>))
    ensures
        r.1.correlation_id == correlation_id,
        ({
            let t = trim_spec(payload.email@);
            if t.len() == 0 {
                &&& r.0 == 400
                &&& r.1.message@ == "Email is required"@
                &&& r.1.error@ == Seq::<char>::empty()
                &&& r.1.data is None
                &&& *final(service) == *old(service)
            } else {
                let i = first_match(user_emails(old(service).repo.users()), t);
                &&& r.0 == 201
                &&& r.1.message@ == "User created successfully"@
                &&& r.1.error@ == Seq::<char>::empty()
                &&& final(service).repo.items() == old(service).repo.items()
                &&& r.1.data matches Some(u) && if i >= 0 {
                    &&& u@ == old(service).repo.users()[i]
                    &&& final(service).repo.users() == old(service).repo.users()
                } else {
                    &&& u@.email == t
                    &&& u@.id.len() == 36
                    &&& uuid_ok(u@.id)
                    &&& final(service).repo.users() == old(service).repo.users().push(u@)
                }
            }
        }),
{
    match service.add_user(payload) {
        Ok(user) => (
            201,
            Response {
                correlation_id,
                message: String::from_str("User created successfully"),
                error: String::new(),
                data: Some(user),
            },
        ),
        Err(e) => error_response(correlation_id, e),
    }
}

pub fn list_users<R: Repository>(service: &Service<R>, correlation_id: String) -> (r: (
    u16,
    Response<Vec<User>>,
))
    ensures
        r.0 == 200,
        r.1.correlation_id == correlation_id,
        r.1.message@ == "Users fetched successfully"@,
        r.1.error@ == Seq::<char>::empty(),
        r.1.data matches Some(v) && v@.map_values(|u: User| u@) == service.repo.users(),
{
    match service.list_user() {
        Ok(users) => (
            200,
            Response {
                correlation_id,
                message: String::from_str("Users fetched successfully"),
                error: String::new(),
                data: Some(users),
            },
        ),
        Err(e) => error_response(correlation_id, e),
    }
}

pub fn get_user<R: Repository>(service: &Service<R>, correlation_id: String, id: String) -> (r: (
    u16,
    Response<User>,
))
    ensures
        r.1.correlation_id == correlation_id,
        ({
            if id@.len() == 0 || !uuid_ok(id@) {
                &&& r.0 == 400
                &&& r.1.message@ == "Invalid user ID format"@
                &&& r.1.error@ == Seq::<char>::empty()
                &&& r.1.data is None
            } else {
                let i = first_match(user_ids(service.repo.users()), id@);
                if i >= 0 {
                    &&& r.0 == 200
                    &&& r.1.message@ == "User fetched successfully"@
                    &&& r.1.error@ == Seq::<char>::empty()
                    &&& r.1.data matches Some(u) && u@ == service.repo.users()[i]
                } else {
                    &&& r.0 == 404
                    &&& r.1.message@ == user_not_found_msg(id@)
                    &&& r.1.error@ == Seq::<char>::empty()
                    &&& r.1.data is None
                }
            }
        }),
{
    match service.get_user(id.as_str()) {
        Ok(user) => (
            200,
            Response {
                correlation_id,
                message: String::from_str("User fetched successfully"),
                error: String::new(),
                data: Some(user),
            },
        ),
        Err(e) => error_response(correlation_id, e),
    }
}

pub fn update_user<R: Repository>(
    service: &mut Service<R>,
    correlation_id: String,
    id: String,
    payload: UpdateUser,
) -> (r: (u16, Response<User>))
    ensures
        r.1.correlation_id == correlation_id,
        ({
            let t = trim_spec(payload.email@);
            if id@.len() == 0 || !uuid_ok(id@) {
                &&& r.0 == 400
                &&& r.1.message@ == "Invalid user ID format"@
                &&& r.1.error@ == Seq::<char>::empty()
                &&& r.1.data is None
                &&& *final(service) == *old(service)
            } else if t.len() == 0 {
                &&& r.0 == 400
                &&& r.1.message@ == "Email cannot be empty"@
                &&& r.1.error@ == Seq::<char>::empty()
                &&& r.1.data is None
                &&& *final(service) == *old(service)
            } else {
                let i = first_match(user_ids(old(service).repo.users()), id@);
                &&& final(service).repo.items() == old(service).repo.items()
                &&& if i >= 0 {
                    &&& r.0 == 200
                    &&& r.1.message@ == "User updated successfully"@
                    &&& r.1.error@ == Seq::<char>::empty()
                    &&& r.1.data matches Some(u) && u@ == (UserView { id: id@, email: t })
                    &&& final(service).repo.users() == old(service).repo.users().update(
                        i,
                        UserView { id: id@, email: t },
                    )
                } else {
                    &&& r.0 == 404
                    &&& r.1.message@ == user_not_found_msg(id@)
                    &&& r.1.error@ == Seq::<char>::empty()
                    &&& r.1.data is None
                    &&& final(service).repo.users() == old(service).repo.users()
                }
            }
        }),
{
    match service.update_user(id.as_str(), payload) {
        Ok(user) => (
            200,
            Response {
                correlation_id,
                message: String::from_str("User updated successfully"),
                error: String::new(),
                data: Some(user),
            },
        ),
        Err(e) => error_response(correlation_id, e),
    }
}

pub fn delete_user<R: Repository>(
    service: &mut Service<R>,
    correlation_id: String,
    id: String,
) -> (r: (u16, Response<()>))
    ensures
        r.1.correlation_id == correlation_id,
        r.1.data is None,
        ({
            if id@.len() == 0 || !uuid_ok(id@) {
                &&& r.0 == 400
                &&& r.1.message@ == "Invalid user ID format"@
                &&& r.1.error@ == Seq::<char>::empty()
                &&& *final(service) == *old(service)
            } else {
                let i = first_match(user_ids(old(service).repo.users()), id@);
                &&& final(service).repo.items() == old(service).repo.items()
                &&& if i >= 0 {
                    &&& r.0 == 200
                    &&& r.1.message@ == "User deleted successfully"@
                    &&& r.1.error@ == Seq::<char>::empty()
                    &&& final(service).repo.users() == old(service).repo.users().remove(i)
                } else {
                    &&& r.0 == 404
                    &&& r.1.message@ == user_not_found_msg(id@)
                    &&& r.1.error@ == Seq::<char>::empty()
                    &&& final(service).repo.users() == old(service).repo.users()
                }
            }
        }),
{
    match service.delete_user(id.as_str()) {
        Ok(_) => (
            200,
            Response {
                correlation_id,
                message: String::from_str("User deleted successfully"),
                error: String::new(),
                data: None,
            },
        ),
        Err(e) => error_response(correlation_id, e),
    }
}

} // verus!
