//! The repository abstraction: one polymorphic interface per storage
//! backend, with the storage semantics stated once, on the trait. The
//! verified in-memory store implements it; a relational backend is transport
//! glue outside the library and must honour the same contract.
//!
//! `get`, `update` and `delete` fail with `NotFound` exactly when no record
//! carries the requested id; `add` is an upsert by natural key (name for
//! items, email for users) that returns the existing record unchanged on a
//! conflict. Storage faults of outside backends are reported as
//! `InternalError`; the in-memory store has none.

use vstd::prelude::*;

use crate::model::error::AppError;
use crate::model::item::{Item, ItemView};
use crate::model::user::{User, UserView};

verus! {

/// The index of the first entry equal to `key`, or -1 when there is none.
pub open spec fn first_match(keys: Seq<Seq<char>>, key: Seq<char>) -> int
    decreases keys.len(),
{
    if keys.len() == 0 {
        -1
    } else if keys[0] == key {
        0
    } else {
        let rest = first_match(keys.drop_first(), key);
        if rest < 0 {
            -1
        } else {
            1 + rest
        }
    }
}

/// What `first_match` finds: a match is present exactly when some entry
/// equals the key, and the index returned is the first such entry.
pub proof fn lemma_first_match(keys: Seq<Seq<char>>, key: Seq<char>)
    ensures
        -1 <= first_match(keys, key) < keys.len(),
        first_match(keys, key) == -1 <==> (forall|j: int| 0 <= j < keys.len() ==> keys[j] != key),
        first_match(keys, key) >= 0 ==> keys[first_match(keys, key)] == key,
        forall|j: int| 0 <= j < first_match(keys, key) ==> keys[j] != key,
    decreases keys.len(),
{
    if keys.len() > 0 && keys[0] != key {
        let rest = keys.drop_first();
        lemma_first_match(rest, key);
        assert(forall|j: int| 0 <= j < rest.len() ==> #[trigger] rest[j] == keys[j + 1]);
        assert(forall|j: int| 1 <= j < keys.len() ==> #[trigger] keys[j] == rest[j - 1]);
    }
}

/// `first_match` returns exactly the index at which a successful linear
/// scan stops.
pub proof fn lemma_first_match_found(keys: Seq<Seq<char>>, key: Seq<char>, i: int)
    requires
        0 <= i < keys.len(),
        keys[i] == key,
        forall|j: int| 0 <= j < i ==> keys[j] != key,
    ensures
        first_match(keys, key) == i,
{
    lemma_first_match(keys, key);
    let fm = first_match(keys, key);
    if fm == -1 {
        assert(keys[i] != key);
        assert(false);
    } else if fm < i {
        assert(keys[fm] == key);
        assert(keys[fm] != key);
        assert(false);
    } else if fm > i {
        assert(keys[i] != key);
        assert(false);
    }
}

/// The ids of a sequence of items.
pub open spec fn item_ids(items: Seq<ItemView>) -> Seq<Seq<char>> {
    items.map_values(|it: ItemView| it.id)
}

/// The names of a sequence of items.
pub open spec fn item_names(items: Seq<ItemView>) -> Seq<Seq<char>> {
    items.map_values(|it: ItemView| it.name)
}

/// The ids of a sequence of users.
pub open spec fn user_ids(users: Seq<UserView>) -> Seq<Seq<char>> {
    users.map_values(|u: UserView| u.id)
}

/// The emails of a sequence of users.
pub open spec fn user_emails(users: Seq<UserView>) -> Seq<Seq<char>> {
    users.map_values(|u: UserView| u.email)
}

/// The store after an item upsert: unchanged when a record already carries
/// the item's name, extended by the item otherwise.
pub open spec fn upsert_item_state(items: Seq<ItemView>, it: ItemView) -> Seq<ItemView> {
    if first_match(item_names(items), it.name) >= 0 {
        items
    } else {
        items.push(it)
    }
}

/// What an item upsert returns: the first record already carrying the
/// item's name, or the item itself when there is none.
pub open spec fn upsert_item_result(items: Seq<ItemView>, it: ItemView) -> ItemView {
    let i = first_match(item_names(items), it.name);
    if i >= 0 {
        items[i]
    } else {
        it
    }
}

/// The store after a user upsert, by email.
pub open spec fn upsert_user_state(users: Seq<UserView>, u: UserView) -> Seq<UserView> {
    if first_match(user_emails(users), u.email) >= 0 {
        users
    } else {
        users.push(u)
    }
}

/// What a user upsert returns, by email.
pub open spec fn upsert_user_result(users: Seq<UserView>, u: UserView) -> UserView {
    let i = first_match(user_emails(users), u.email);
    if i >= 0 {
        users[i]
    } else {
        u
    }
}

/// Law: item creation is idempotent by name. Upserting two items whose
/// names agree leaves the store exactly as the first upsert left it, and
/// both upserts return a record with the same id.
pub proof fn lemma_upsert_item_idempotent(items: Seq<ItemView>, it1: ItemView, it2: ItemView)
    requires
        it2.name == it1.name,
    ensures
        upsert_item_state(upsert_item_state(items, it1), it2) == upsert_item_state(items, it1),
        upsert_item_result(upsert_item_state(items, it1), it2).id == upsert_item_result(
            items,
            it1,
        ).id,
{
    let keys = item_names(items);
    lemma_first_match(keys, it1.name);
    if first_match(keys, it1.name) < 0 {
        let pushed = items.push(it1);
        assert(item_names(pushed) =~= keys.push(it1.name));
        lemma_first_match_found(item_names(pushed), it1.name, items.len() as int);
    }
}

/// Law: an upsert keeps item names unique. A store whose names are
/// pairwise distinct stays that way, since only a name not yet present is
/// ever appended.
pub proof fn lemma_upsert_item_unique_names(items: Seq<ItemView>, it: ItemView)
    requires
        forall|i: int, j: int|
            0 <= i < j < items.len() ==> items[i].name != items[j].name,
    ensures
        forall|i: int, j: int|
            0 <= i < j < upsert_item_state(items, it).len() ==> upsert_item_state(items, it)[i].name
                != upsert_item_state(items, it)[j].name,
{
    let keys = item_names(items);
    lemma_first_match(keys, it.name);
    if first_match(keys, it.name) < 0 {
        assert(forall|k: int| 0 <= k < items.len() ==> #[trigger] items[k].name != it.name) by {
            assert(forall|k: int| 0 <= k < keys.len() ==> #[trigger] keys[k] != it.name);
            assert(forall|k: int| 0 <= k < items.len() ==> keys[k] == #[trigger] items[k].name);
        }
    }
}

/// Law: an upsert keeps user emails unique, in the same way.
pub proof fn lemma_upsert_user_unique_emails(users: Seq<UserView>, u: UserView)
    requires
        forall|i: int, j: int|
            0 <= i < j < users.len() ==> users[i].email != users[j].email,
    ensures
        forall|i: int, j: int|
            0 <= i < j < upsert_user_state(users, u).len() ==> upsert_user_state(users, u)[i].email
                != upsert_user_state(users, u)[j].email,
{
    let keys = user_emails(users);
    lemma_first_match(keys, u.email);
    if first_match(keys, u.email) < 0 {
        assert(forall|k: int| 0 <= k < users.len() ==> #[trigger] users[k].email != u.email) by {
            assert(forall|k: int| 0 <= k < keys.len() ==> #[trigger] keys[k] != u.email);
            assert(forall|k: int| 0 <= k < users.len() ==> keys[k] == #[trigger] users[k].email);
        }
    }
}

/// The message reported when no item carries the requested id.
pub open spec fn item_not_found_msg(id: Seq<char>) -> Seq<char> {
    "Item with id "@ + id + " not found"@
}

/// The message reported when no user carries the requested id.
pub open spec fn user_not_found_msg(id: Seq<char>) -> Seq<char> {
    "User with id "@ + id + " not found"@
}

/// A storage backend for both entities. Each implementation exposes its
/// contents through the two spec functions and meets the contracts below.
pub trait Repository: Sized {
    /// The stored items, in insertion order.
    spec fn items(&self) -> Seq<ItemView>;

    /// The stored users, in insertion order.
    spec fn users(&self) -> Seq<UserView>;

    /// Upsert by name: a record already carrying `item`'s name is returned
    /// unchanged and nothing is stored; otherwise `item` is appended.
    fn add_item(&mut self, item: Item) -> (r: Result<Item, AppError>)
        ensures
            final(self).items() == upsert_item_state(old(self).items(), item@),
            final(self).users() == old(self).users(),
            r matches Ok(it) && it@ == upsert_item_result(old(self).items(), item@),
    ;

    fn list_item(&self) -> (r: Result<Vec<Item>, AppError>)
        ensures
            r matches Ok(v) && v@.map_values(|it: Item| it@) == self.items(),
    ;

    fn get_item(&self, id: &str) -> (r: Result<Item, AppError>)
        ensures
            ({
                let i = first_match(item_ids(self.items()), id@);
                match r {
                    Ok(it) => i >= 0 && it@ == self.items()[i],
                    Err(e) => i == -1 && e.code is NotFound && e.message@ == item_not_found_msg(
                        id@,
                    ),
                }
            }),
    ;

    /// Rename the first record carrying `id`; its id is immutable.
    fn update_item(&mut self, id: &str, name: String) -> (r: Result<Item, AppError>)
        ensures
            final(self).users() == old(self).users(),
            ({
                let i = first_match(item_ids(old(self).items()), id@);
                match r {
                    Ok(it) => {
                        &&& i >= 0
                        &&& it@ == (ItemView { id: id@, name: name@ })
                        &&& final(self).items() == old(self).items().update(
                            i,
                            ItemView { id: id@, name: name@ },
                        )
                    },
                    Err(e) => {
                        &&& i == -1
                        &&& final(self).items() == old(self).items()
                        &&& e.code is NotFound
                        &&& e.message@ == item_not_found_msg(id@)
                    },
                }
            }),
    ;

    fn delete_item(&mut self, id: &str) -> (r: Result<(), AppError>)
        ensures
            final(self).users() == old(self).users(),
            ({
                let i = first_match(item_ids(old(self).items()), id@);
                match r {
                    Ok(_) => i >= 0 && final(self).items() == old(self).items().remove(i),
                    Err(e) => {
                        &&& i == -1
                        &&& final(self).items() == old(self).items()
                        &&& e.code is NotFound
                        &&& e.message@ == item_not_found_msg(id@)
                    },
                }
            }),
    ;

    /// Upsert by email, the user's natural key.
    fn add_user(&mut self, user: User) -> (r: Result<User, AppError>)
        ensures
            final(self).users() == upsert_user_state(old(self).users(), user@),
            final(self).items() == old(self).items(),
            r matches Ok(u) && u@ == upsert_user_result(old(self).users(), user@),
    ;

    fn list_user(&self) -> (r: Result<Vec<User>, AppError>)
        ensures
            r matches Ok(v) && v@.map_values(|u: User| u@) == self.users(),
    ;

    fn get_user(&self, id: &str) -> (r: Result<User, AppError>)
        ensures
            ({
                let i = first_match(user_ids(self.users()), id@);
                match r {
                    Ok(u) => i >= 0 && u@ == self.users()[i],
                    Err(e) => i == -1 && e.code is NotFound && e.message@ == user_not_found_msg(
                        id@,
                    ),
                }
            }),
    ;

    fn update_user(&mut self, id: &str, email: String) -> (r: Result<User, AppError>)
        ensures
            final(self).items() == old(self).items(),
            ({
                let i = first_match(user_ids(old(self).users()), id@);
                match r {
                    Ok(u) => {
                        &&& i >= 0
                        &&& u@ == (UserView { id: id@, email: email@ })
                        &&& final(self).users() == old(self).users().update(
                            i,
                            UserView { id: id@, email: email@ },
                        )
                    },
                    Err(e) => {
                        &&& i == -1
                        &&& final(self).users() == old(self).users()
                        &&& e.code is NotFound
                        &&& e.message@ == user_not_found_msg(id@)
                    },
                }
            }),
    ;

    fn delete_user(&mut self, id: &str) -> (r: Result<(), AppError>)
        ensures
            final(self).items() == old(self).items(),
            ({
                let i = first_match(user_ids(old(self).users()), id@);
                match r {
                    Ok(_) => i >= 0 && final(self).users() == old(self).users().remove(i),
                    Err(e) => {
                        &&& i == -1
                        &&& final(self).users() == old(self).users()
                        &&& e.code is NotFound
                        &&& e.message@ == user_not_found_msg(id@)
                    },
                }
            }),
    ;
}

} // verus!
