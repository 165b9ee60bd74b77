//! The error taxonomy: every fallible repository or service operation reports
//! an `AppError`, and the transport layer maps its code to an HTTP status.

use vstd::prelude::*;

verus! {

/// What went wrong: the entity is absent, the caller's input failed
/// validation, or the storage layer faulted (with a diagnostic detail).
#[derive(Debug)]
pub enum AppErrorCode {
    NotFound,
    InvalidInput,
    InternalError(String),
}

/// A domain failure: a code picking the HTTP status, and a human-readable
/// message safe to surface to the caller.
#[derive(Debug)]
pub struct AppError {
    pub code: AppErrorCode,
    pub message: String,
}

/// The HTTP status that each error code maps to.
pub open spec fn status_of(code: AppErrorCode) -> u16 {
    match code {
        AppErrorCode::NotFound => 404,
        AppErrorCode::InvalidInput => 400,
        AppErrorCode::InternalError(_) => 500,
    }
}

/// The diagnostic detail: the payload of `InternalError`, empty for the
/// other codes. It is never a substitute for the public message.
pub open spec fn detail_of(code: AppErrorCode) -> Seq<char> {
    match code {
        AppErrorCode::InternalError(d) => d@,
        _ => Seq::<char>::empty(),
    }
}

impl AppError {
    pub fn get_http_status(&self) -> (s: u16)
        ensures
            s == status_of(self.code),
    {
        match self.code {
            AppErrorCode::NotFound => 404,
            AppErrorCode::InvalidInput => 400,
            AppErrorCode::InternalError(_) => 500,
        }
    }

    pub fn get_message(&self) -> (m: String)
        ensures
            m@ == self.message@,
    {
        self.message.clone()
    }

    pub fn get_error(&self) -> (d: String)
        ensures
            d@ == detail_of(self.code),
    {
        match &self.code {
            AppErrorCode::InternalError(e) => e.clone(),
            _ => String::new(),
        }
    }
}

} // verus!
