//! Item handlers: each one calls the corresponding service operation and
//! wraps the outcome in the uniform envelope, with the operation's success
//! message and status code, or the error's own.

use vstd::prelude::*;
use vstd::string::StringExecFns;

use crate::handler::common::error_response;
use crate::ident::uuid_ok;
use crate::model::http::Response;
use crate::model::item::{Item, ItemView};
use crate::repository::registry::{
    first_match, item_ids, item_names, item_not_found_msg, Repository,
};
use crate::service::registry::Service;
use crate::text::{lower_of, trim_spec};

verus! {

pub fn list_items<R: Repository>(service: &Service<R>, correlation_id: String) -> (r: (
    u16,
    Response<Vec<Item>>,
))
    ensures
        r.0 == 200,
        r.1.correlation_id == correlation_id,
        r.1.message@ == "ok"@,
        r.1.error@ == Seq::<char>::empty(),
        r.1.data matches Some(v) && v@.map_values(|it: Item| it@) == service.repo.items(),
{
    match service.list_item() {
        Ok(items) => (
            200,
            Response {
                correlation_id,
                message: String::from_str("ok"),
                error: String::new(),
                data: Some(items),
            },
        ),
        Err(e) => error_response(correlation_id, e),
    }
}

pub fn create_item<R: Repository>(
    service: &mut Service<R>,
    correlation_id: String,
    name: String,
) -> (r: (u16, Response<Item>))
    ensures
        r.1.correlation_id == correlation_id,
        ({
            let t = trim_spec(name@);
            let key = lower_of(t);
            if t.len() == 0 {
                &&& r.0 == 400
                &&& r.1.message@ == "Item name cannot be empty"@
                &&& r.1.error@ == Seq::<char>::empty()
                &&& r.1.data is None
                &&& *final(service) == *old(service)
            } else {
                let i = first_match(item_names(old(service).repo.items()), key);
                &&& r.0 == 201
                &&& r.1.error@ == Seq::<char>::empty()
                &&& final(service).repo.users() == old(service).repo.users()
                &&& r.1.data matches Some(it) && {
                    &&& r.1.message@ == "Created item '"@ + it@.name + "'"@
                    &&& if i >= 0 {
                        &&& it@ == old(service).repo.items()[i]
                        &&& final(service).repo.items() == old(service).repo.items()
                    } else {
                        &&& it@.name == key
                        &&& it@.id.len() == 36
                        &&& uuid_ok(it@.id)
                        &&& final(service).repo.items() == old(service).repo.items().push(it@)
                    }
                }
            }
        }),
{
    match service.create_item(name) {
        Ok(item) => {
            let message = String::from_str("Created item '").concat(item.name.as_str()).concat(
                "'",
            );
            (
                201,
                Response { correlation_id, message, error: String::new(), data: Some(item) },
            )
        },
        Err(e) => error_response(correlation_id, e),
    }
}

pub fn get_item<R: Repository>(service: &Service<R>, correlation_id: String, id: String) -> (r: (
    u16,
    Response<Item>,
))
    ensures
        r.1.correlation_id == correlation_id,
        ({
            let t = trim_spec(id@);
            if t.len() == 0 {
                &&& r.0 == 400
                &&& r.1.message@ == "Item ID cannot be empty"@
                &&& r.1.error@ == Seq::<char>::empty()
                &&& r.1.data is None
            } else {
                let i = first_match(item_ids(service.repo.items()), t);
                if i >= 0 {
                    &&& r.0 == 200
                    &&& r.1.message@ == "ok"@
                    &&& r.1.error@ == Seq::<char>::empty()
                    &&& r.1.data matches Some(it) && it@ == service.repo.items()[i]
                } else {
                    &&& r.0 == 404
                    &&& r.1.message@ == item_not_found_msg(t)
                    &&& r.1.error@ == Seq::<char>::empty()
                    &&& r.1.data is None
                }
            }
        }),
{
    match service.get_item(id) {
        Ok(item) => (
            200,
            Response {
                correlation_id,
                message: String::from_str("ok"),
                error: String::new(),
                data: Some(item),
            },
        ),
        Err(e) => error_response(correlation_id, e),
    }
}

pub fn update_item<R: Repository>(
    service: &mut Service<R>,
    correlation_id: String,
    id: String,
    name: String,
) -> (r: (u16, Response<Item>))
    ensures
        r.1.correlation_id == correlation_id,
        ({
            let tid = trim_spec(id@);
            let t = trim_spec(name@);
            let key = lower_of(t);
            if tid.len() == 0 {
                &&& r.0 == 400
                &&& r.1.message@ == "Item ID cannot be empty"@
                &&& r.1.error@ == Seq::<char>::empty()
                &&& r.1.data is None
                &&& *final(service) == *old(service)
            } else if t.len() == 0 {
                &&& r.0 == 400
                &&& r.1.message@ == "Item name cannot be empty"@
                &&& r.1.error@ == Seq::<char>::empty()
                &&& r.1.data is None
                &&& *final(service) == *old(service)
            } else {
                let i = first_match(item_ids(old(service).repo.items()), tid);
                &&& final(service).repo.users() == old(service).repo.users()
                &&& if i >= 0 {
                    &&& r.0 == 200
                    &&& r.1.message@ == "Updated item '"@ + key + "' with id "@ + tid
                    &&& r.1.error@ == Seq::<char>::empty()
                    &&& r.1.data matches Some(it) && it@ == (ItemView { id: tid, name: key })
                    &&& final(service).repo.items() == old(service).repo.items().update(
                        i,
                        ItemView { id: tid, name: key },
                    )
                } else {
                    &&& r.0 == 404
                    &&& r.1.message@ == item_not_found_msg(tid)
                    &&& r.1.error@ == Seq::<char>::empty()
                    &&& r.1.data is None
                    &&& final(service).repo.items() == old(service).repo.items()
                }
            }
        }),
{
    match service.update_item(id, name) {
        Ok(item) => {
            let message = String::from_str("Updated item '").concat(item.name.as_str()).concat(
                "' with id ",
            ).concat(item.id.as_str());
            (
                200,
                Response { correlation_id, message, error: String::new(), data: Some(item) },
            )
        },
        Err(e) => error_response(correlation_id, e),
    }
}

pub fn delete_item<R: Repository>(
    service: &mut Service<R>,
    correlation_id: String,
    id: String,
) -> (r: (u16, Response<()>))
    ensures
        r.1.correlation_id == correlation_id,
        r.1.data is None,
        ({
            let tid = trim_spec(id@);
            if tid.len() == 0 {
                &&& r.0 == 400
                &&& r.1.message@ == "Item ID cannot be empty"@
                &&& r.1.error@ == Seq::<char>::empty()
                &&& *final(service) == *old(service)
            } else {
                let i = first_match(item_ids(old(service).repo.items()), tid);
                &&& final(service).repo.users() == old(service).repo.users()
                &&& if i >= 0 {
                    &&& r.0 == 200
                    &&& r.1.message@ == "Deleted item with id "@ + id@
                    &&& r.1.error@ == Seq::<char>::empty()
                    &&& final(service).repo.items() == old(service).repo.items().remove(i)
                } else {
                    &&& r.0 == 404
                    &&& r.1.message@ == item_not_found_msg(tid)
                    &&& r.1.error@ == Seq::<char>::empty()
                    &&& final(service).repo.items() == old(service).repo.items()
                }
            }
        }),
{
    match service.delete_item(id.clone()) {
        Ok(_) => {
            let message = String::from_str("Deleted item with id ").concat(id.as_str());
            (200, Response { correlation_id, message, error: String::new(), data: None })
        },
        Err(e) => error_response(correlation_id, e),
    }
}

} // verus!
