//! The `User` entity: an id that is a valid UUID string whenever a caller
//! references it, and a trimmed, non-empty email.

use vstd::prelude::*;

verus! {

#[derive(Debug)]
pub struct User {
    pub id: String,
    pub email: String,
}

/// The mathematical value of a `User`: its fields as character sequences.
pub struct UserView {
    pub id: Seq<char>,
    pub email: Seq<char>,
}

impl View for User {
    type V = UserView;

    open spec fn view(&self) -> UserView {
        UserView { id: self.id@, email: self.email@ }
    }
}

impl Clone for User {
    fn clone(&self) -> (r: Self)
        ensures
            r == *self,
    {
        User { id: self.id.clone(), email: self.email.clone() }
    }
}

} // verus!
