//! The `Item` entity: an opaque unique id and a trimmed, lower-cased,
//! non-empty name. The id never changes once assigned.

use vstd::prelude::*;

verus! {

#[derive(Debug)]
pub struct Item {
    pub id: String,
    pub name: String,
}

/// The mathematical value of an `Item`: its fields as character sequences.
pub struct ItemView {
    pub id: Seq<char>,
    pub name: Seq<char>,
}

impl View for Item {
    type V = ItemView;

    open spec fn view(&self) -> ItemView {
        ItemView { id: self.id@, name: self.name@ }
    }
}

impl Clone for Item {
    fn clone(&self) -> (r: Self)
        ensures
            r == *self,
    {
        Item { id: self.id.clone(), name: self.name.clone() }
    }
}

} // verus!
