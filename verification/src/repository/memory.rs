//! The in-memory store: one ordered vector per entity, searched by linear
//! scan. Single-threaded by construction; a host that shares it across
//! requests guards it with one lock and reports lock faults as
//! `InternalError` itself.

use vstd::prelude::*;
use vstd::string::StringExecFns;

use crate::model::error::{AppError, AppErrorCode};
use crate::model::item::{Item, ItemView};
use crate::model::user::{User, UserView};
use crate::repository::registry::{
    first_match, item_ids, item_names, lemma_first_match, lemma_first_match_found, user_emails,
    user_ids, Repository,
};

verus! {

/// The stored items as mathematical values.
pub open spec fn item_views(s: Seq<Item>) -> Seq<ItemView> {
    s.map_values(|it: Item| it@)
}

/// The stored users as mathematical values.
pub open spec fn user_views(s: Seq<User>) -> Seq<UserView> {
    s.map_values(|u: User| u@)
}

pub struct InMemoryRepository {
    items: Vec<Item>,
    users: Vec<User>,
}

/// The index of the first stored item carrying `id`, if any.
fn find_item_by_id(items: &Vec<Item>, id: &str) -> (r: Option<usize>)
    ensures
        match r {
            Some(j) => j < items@.len() && first_match(item_ids(item_views(items@)), id@)
                == j as int,
            None => first_match(item_ids(item_views(items@)), id@) == -1,
        },
{
    proof {
        lemma_first_match(item_ids(item_views(items@)), id@);
        assert(forall|k: int| 0 <= k < items@.len() ==> #[trigger] item_ids(item_views(items@))[k]
            == items@[k]@.id);
    }
    let key = String::from_str(id);
    let n = items.len();
    let mut j: usize = 0;
    while j < n
        invariant
            j <= n,
            n == items@.len(),
            key@ == id@,
            forall|k: int| 0 <= k < j ==> items@[k]@.id != id@,
        decreases n - j,
    {
        if items[j].id == key {
            proof {
                lemma_first_match_found(item_ids(item_views(items@)), id@, j as int);
            }
            return Some(j);
        }
        j = j + 1;
    }
    None
}

/// The index of the first stored item carrying `name`, if any.
fn find_item_by_name(items: &Vec<Item>, name: &String) -> (r: Option<usize>)
    ensures
        match r {
            Some(j) => j < items@.len() && first_match(item_names(item_views(items@)), name@)
                == j as int,
            None => first_match(item_names(item_views(items@)), name@) == -1,
        },
{
    proof {
        lemma_first_match(item_names(item_views(items@)), name@);
        assert(forall|k: int| 0 <= k < items@.len() ==> #[trigger] item_names(item_views(items@))[k]
            == items@[k]@.name);
    }
    let n = items.len();
    let mut j: usize = 0;
    while j < n
        invariant
            j <= n,
            n == items@.len(),
            forall|k: int| 0 <= k < j ==> items@[k]@.name != name@,
        decreases n - j,
    {
        if items[j].name == *name {
            proof {
                lemma_first_match_found(item_names(item_views(items@)), name@, j as int);
            }
            return Some(j);
        }
        j = j + 1;
    }
    None
}

/// The index of the first stored user carrying `id`, if any.
fn find_user_by_id(users: &Vec<User>, id: &str) -> (r: Option<usize>)
    ensures
        match r {
            Some(j) => j < users@.len() && first_match(user_ids(user_views(users@)), id@)
                == j as int,
            None => first_match(user_ids(user_views(users@)), id@) == -1,
        },
{
    proof {
        lemma_first_match(user_ids(user_views(users@)), id@);
        assert(forall|k: int| 0 <= k < users@.len() ==> #[trigger] user_ids(user_views(users@))[k]
            == users@[k]@.id);
    }
    let key = String::from_str(id);
    let n = users.len();
    let mut j: usize = 0;
    while j < n
        invariant
            j <= n,
            n == users@.len(),
            key@ == id@,
            forall|k: int| 0 <= k < j ==> users@[k]@.id != id@,
        decreases n - j,
    {
        if users[j].id == key {
            proof {
                lemma_first_match_found(user_ids(user_views(users@)), id@, j as int);
            }
            return Some(j);
        }
        j = j + 1;
    }
    None
}

/// The index of the first stored user carrying `email`, if any.
fn find_user_by_email(users: &Vec<User>, email: &String) -> (r: Option<usize>)
    ensures
        match r {
            Some(j) => j < users@.len() && first_match(user_emails(user_views(users@)), email@)
                == j as int,
            None => first_match(user_emails(user_views(users@)), email@) == -1,
        },
{
    proof {
        lemma_first_match(user_emails(user_views(users@)), email@);
        assert(forall|k: int| 0 <= k < users@.len() ==> #[trigger] user_emails(user_views(users@))[k]
            == users@[k]@.email);
    }
    let n = users.len();
    let mut j: usize = 0;
    while j < n
        invariant
            j <= n,
            n == users@.len(),
            forall|k: int| 0 <= k < j ==> users@[k]@.email != email@,
        decreases n - j,
    {
        if users[j].email == *email {
            proof {
                lemma_first_match_found(user_emails(user_views(users@)), email@, j as int);
            }
            return Some(j);
        }
        j = j + 1;
    }
    None
}

impl InMemoryRepository {
    /// An empty store.
    pub fn new() -> (r: Self)
        ensures
            r.items() == Seq::<ItemView>::empty(),
            r.users() == Seq::<UserView>::empty(),
    {
        let r = InMemoryRepository { items: Vec::new(), users: Vec::new() };
        proof {
            assert(item_views(r.items@) =~= Seq::<ItemView>::empty());
            assert(user_views(r.users@) =~= Seq::<UserView>::empty());
        }
        r
    }
}

impl Repository for InMemoryRepository {
    closed spec fn items(&self) -> Seq<ItemView> {
        item_views(self.items@)
    }

    closed spec fn users(&self) -> Seq<UserView> {
        user_views(self.users@)
    }

    fn add_item(&mut self, item: Item) -> (r: Result<Item, AppError>) {
        match find_item_by_name(&self.items, &item.name) {
            Some(j) => Ok(self.items[j].clone()),
            None => {
                let out = item.clone();
                self.items.push(item);
                proof {
                    assert(item_views(self.items@) =~= item_views(old(self).items@).push(item@));
                }
                Ok(out)
            },
        }
    }

    fn list_item(&self) -> (r: Result<Vec<Item>, AppError>) {
        let n = self.items.len();
        let mut out: Vec<Item> = Vec::new();
        let mut j: usize = 0;
        while j < n
            invariant
                j <= n,
                n == self.items@.len(),
                out@.len() == j,
                forall|k: int| 0 <= k < j ==> out@[k] == self.items@[k],
            decreases n - j,
        {
            out.push(self.items[j].clone());
            j = j + 1;
        }
        proof {
            assert(item_views(out@) =~= item_views(self.items@));
        }
        Ok(out)
    }

    fn get_item(&self, id: &str) -> (r: Result<Item, AppError>) {
        match find_item_by_id(&self.items, id) {
            Some(j) => Ok(self.items[j].clone()),
            None => Err(
                AppError {
                    code: AppErrorCode::NotFound,
                    message: String::from_str("Item with id ").concat(id).concat(" not found"),
                },
            ),
        }
    }

    fn update_item(&mut self, id: &str, name: String) -> (r: Result<Item, AppError>) {
        match find_item_by_id(&self.items, id) {
            Some(j) => {
                let renamed = Item { id: self.items[j].id.clone(), name };
                let out = renamed.clone();
                proof {
                    lemma_first_match(item_ids(item_views(self.items@)), id@);
                }
                self.items[j] = renamed;
                proof {
                    assert(item_views(self.items@) =~= item_views(old(self).items@).update(
                        j as int,
                        ItemView { id: id@, name: out@.name },
                    ));
                }
                Ok(out)
            },
            None => Err(
                AppError {
                    code: AppErrorCode::NotFound,
                    message: String::from_str("Item with id ").concat(id).concat(" not found"),
                },
            ),
        }
    }

    fn delete_item(&mut self, id: &str) -> (r: Result<(), AppError>) {
        match find_item_by_id(&self.items, id) {
            Some(j) => {
                self.items.remove(j);
                proof {
                    assert(item_views(self.items@) =~= item_views(old(self).items@).remove(
                        j as int,
                    ));
                }
                Ok(())
            },
            None => Err(
                AppError {
                    code: AppErrorCode::NotFound,
                    message: String::from_str("Item with id ").concat(id).concat(" not found"),
                },
            ),
        }
    }

    fn add_user(&mut self, user: User) -> (r: Result<User, AppError>) {
        match find_user_by_email(&self.users, &user.email) {
            Some(j) => Ok(self.users[j].clone()),
            None => {
                let out = user.clone();
                self.users.push(user);
                proof {
                    assert(user_views(self.users@) =~= user_views(old(self).users@).push(user@));
                }
                Ok(out)
            },
        }
    }

    fn list_user(&self) -> (r: Result<Vec<User>, AppError>) {
        let n = self.users.len();
        let mut out: Vec<User> = Vec::new();
        let mut j: usize = 0;
        while j < n
            invariant
                j <= n,
                n == self.users@.len(),
                out@.len() == j,
                forall|k: int| 0 <= k < j ==> out@[k] == self.users@[k],
            decreases n - j,
        {
            out.push(self.users[j].clone());
            j = j + 1;
        }
        proof {
            assert(user_views(out@) =~= user_views(self.users@));
        }
        Ok(out)
    }

    fn get_user(&self, id: &str) -> (r: Result<User, AppError>) {
        match find_user_by_id(&self.users, id) {
            Some(j) => Ok(self.users[j].clone()),
            None => Err(
                AppError {
                    code: AppErrorCode::NotFound,
                    message: String::from_str("User with id ").concat(id).concat(" not found"),
                },
            ),
        }
    }

    fn update_user(&mut self, id: &str, email: String) -> (r: Result<User, AppError>) {
        match find_user_by_id(&self.users, id) {
            Some(j) => {
                let changed = User { id: self.users[j].id.clone(), email };
                let out = changed.clone();
                proof {
                    lemma_first_match(user_ids(user_views(self.users@)), id@);
                }
                self.users[j] = changed;
                proof {
                    assert(user_views(self.users@) =~= user_views(old(self).users@).update(
                        j as int,
                        UserView { id: id@, email: out@.email },
                    ));
                }
                Ok(out)
            },
            None => Err(
                AppError {
                    code: AppErrorCode::NotFound,
                    message: String::from_str("User with id ").concat(id).concat(" not found"),
                },
            ),
        }
    }

    fn delete_user(&mut self, id: &str) -> (r: Result<(), AppError>) {
        match find_user_by_id(&self.users, id) {
            Some(j) => {
                self.users.remove(j);
                proof {
                    assert(user_views(self.users@) =~= user_views(old(self).users@).remove(
                        j as int,
                    ));
                }
                Ok(())
            },
            None => Err(
                AppError {
                    code: AppErrorCode::NotFound,
                    message: String::from_str("User with id ").concat(id).concat(" not found"),
                },
            ),
        }
    }
}

} // verus!
