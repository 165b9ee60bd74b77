//! The uniform response envelope: every response, success or failure, is
//! shaped this way, with the request's correlation id attached.

use vstd::prelude::*;

verus! {

pub struct Response<T> {
    pub correlation_id: String,
    pub message: String,
    pub error: String,
    pub data: Option<T>,
}

} // verus!
