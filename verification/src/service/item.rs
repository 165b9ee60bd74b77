//! Item operations: trim ids, trim and lower-case names, reject empty
//! input, and delegate to the repository.

use vstd::prelude::*;
use vstd::string::StringExecFns;

use crate::ident::{fresh_id, uuid_ok};
use crate::model::error::{AppError, AppErrorCode};
use crate::model::item::{Item, ItemView};
use crate::repository::registry::{
    first_match, item_ids, item_names, item_not_found_msg, Repository,
};
use crate::service::registry::Service;
use crate::text::{lower_of, lowercase, trim, trim_spec};

verus! {

impl<R: Repository> Service<R> {
    /// Fetch the item carrying the trimmed id; an id that trims to nothing
    /// is rejected before storage is consulted.
    pub fn get_item(&self, id: String) -> (r: Result<Item, AppError>)
        ensures
            ({
                let t = trim_spec(id@);
                if t.len() == 0 {
                    r matches Err(e) && e.code is InvalidInput && e.message@
                        == "Item ID cannot be empty"@
                } else {
                    let i = first_match(item_ids(self.repo.items()), t);
                    match r {
                        Ok(it) => i >= 0 && it@ == self.repo.items()[i],
                        Err(e) => i == -1 && e.code is NotFound && e.message@
                            == item_not_found_msg(t),
                    }
                }
            }),
    {
        let id_t = trim(id.as_str());
        if id_t.as_str().is_empty() {
            return Err(
                AppError {
                    code: AppErrorCode::InvalidInput,
                    message: String::from_str("Item ID cannot be empty"),
                },
            );
        }
        self.repo.get_item(id_t.as_str())
    }

    pub fn list_item(&self) -> (r: Result<Vec<Item>, AppError>)
        ensures
            r matches Ok(v) && v@.map_values(|it: Item| it@) == self.repo.items(),
    {
        self.repo.list_item()
    }

    /// Create an item under a fresh random id: the name is trimmed and
    /// lower-cased, an empty result is rejected, and the store is upserted
    /// by name, so a record already carrying the name comes back unchanged.
    pub fn create_item(&mut self, name: String) -> (r: Result<Item, AppError>)
        ensures
            ({
                let t = trim_spec(name@);
                let key = lower_of(t);
                if t.len() == 0 {
                    &&& r matches Err(e) && e.code is InvalidInput && e.message@
                        == "Item name cannot be empty"@
                    &&& *final(self) == *old(self)
                } else {
                    let i = first_match(item_names(old(self).repo.items()), key);
                    &&& final(self).repo.users() == old(self).repo.users()
                    &&& r matches Ok(it) && if i >= 0 {
                        &&& it@ == old(self).repo.items()[i]
                        &&& final(self).repo.items() == old(self).repo.items()
                    } else {
                        &&& it@.name == key
                        &&& it@.id.len() == 36
                        &&& uuid_ok(it@.id)
                        &&& final(self).repo.items() == old(self).repo.items().push(it@)
                    }
                }
            }),
    {
        let trimmed = trim(name.as_str());
        let normalized = lowercase(trimmed.as_str());
        if normalized.as_str().is_empty() {
            return Err(
                AppError {
                    code: AppErrorCode::InvalidInput,
                    message: String::from_str("Item name cannot be empty"),
                },
            );
        }
        let new_item = Item { id: fresh_id(), name: normalized };
        self.repo.add_item(new_item)
    }

    /// Rename the item carrying the trimmed id; the new name is trimmed and
    /// lower-cased, and an empty id or name is rejected before storage is
    /// consulted.
    pub fn update_item(&mut self, id: String, name: String) -> (r: Result<Item, AppError>)
        ensures
            ({
                let tid = trim_spec(id@);
                let t = trim_spec(name@);
                let key = lower_of(t);
                if tid.len() == 0 {
                    &&& r matches Err(e) && e.code is InvalidInput && e.message@
                        == "Item ID cannot be empty"@
                    &&& *final(self) == *old(self)
                } else if t.len() == 0 {
                    &&& r matches Err(e) && e.code is InvalidInput && e.message@
                        == "Item name cannot be empty"@
                    &&& *final(self) == *old(self)
                } else {
                    let i = first_match(item_ids(old(self).repo.items()), tid);
                    &&& final(self).repo.users() == old(self).repo.users()
                    &&& match r {
                        Ok(it) => {
                            &&& i >= 0
                            &&& it@ == (ItemView { id: tid, name: key })
                            &&& final(self).repo.items() == old(self).repo.items().update(
                                i,
                                ItemView { id: tid, name: key },
                            )
                        },
                        Err(e) => {
                            &&& i == -1
                            &&& final(self).repo.items() == old(self).repo.items()
                            &&& e.code is NotFound
                            &&& e.message@ == item_not_found_msg(tid)
                        },
                    }
                }
            }),
    {
        let id_t = trim(id.as_str());
        if id_t.as_str().is_empty() {
            return Err(
                AppError {
                    code: AppErrorCode::InvalidInput,
                    message: String::from_str("Item ID cannot be empty"),
                },
            );
        }
        let trimmed = trim(name.as_str());
        let normalized = lowercase(trimmed.as_str());
        if normalized.as_str().is_empty() {
            return Err(
                AppError {
                    code: AppErrorCode::InvalidInput,
                    message: String::from_str("Item name cannot be empty"),
                },
            );
        }
        self.repo.update_item(id_t.as_str(), normalized)
    }

    /// Remove the item carrying the trimmed id; an id that trims to nothing
    /// is rejected before storage is consulted.
    pub fn delete_item(&mut self, id: String) -> (r: Result<(), AppError>)
        ensures
            ({
                let tid = trim_spec(id@);
                if tid.len() == 0 {
                    &&& r matches Err(e) && e.code is InvalidInput && e.message@
                        == "Item ID cannot be empty"@
                    &&& *final(self) == *old(self)
                } else {
                    let i = first_match(item_ids(old(self).repo.items()), tid);
                    &&& final(self).repo.users() == old(self).repo.users()
                    &&& match r {
                        Ok(_) => i >= 0 && final(self).repo.items() == old(
                            self,
                        ).repo.items().remove(i),
                        Err(e) => {
                            &&& i == -1
                            &&& final(self).repo.items() == old(self).repo.items()
                            &&& e.code is NotFound
                            &&& e.message@ == item_not_found_msg(tid)
                        },
                    }
                }
            }),
    {
        let id_t = trim(id.as_str());
        if id_t.as_str().is_empty() {
            return Err(
                AppError {
                    code: AppErrorCode::InvalidInput,
                    message: String::from_str("Item ID cannot be empty"),
                },
            );
        }
        self.repo.delete_item(id_t.as_str())
    }
}

} // verus!
