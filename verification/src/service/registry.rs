//! The service layer: input validation and normalization in front of a
//! repository chosen at composition time and injected through the
//! constructor.

use vstd::prelude::*;

use crate::repository::registry::Repository;

verus! {

pub struct Service<R: Repository> {
    pub repo: R,
}

impl<R: Repository> Service<R> {
    pub fn new(repo: R) -> (s: Self)
        ensures
            s.repo == repo,
    {
        Service { repo }
    }
}

} // verus!
