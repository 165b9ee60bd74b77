//! Correlation tracking: every request is processed under one identifier,
//! copied verbatim from the inbound `X-Correlation-Id` header when that is
//! present and non-empty, freshly generated otherwise, and attached to the
//! response under the same header whatever the outcome. The transport layer
//! reads the header and re-attaches the result; the choice itself is here.

use vstd::prelude::*;

use crate::ident::{fresh_id, uuid_ok};

verus! {

pub type CorrelationId = String;

/// The header that carries the correlation id, inbound and outbound.
pub const X_CORRELATION_ID: &'static str = "X-Correlation-Id";

/// The identifier a request is processed under: the inbound header value
/// when one came and is non-empty, a fresh random UUID string otherwise.
pub fn resolve_correlation_id(header: Option<String>) -> (r: CorrelationId)
    ensures
        match header {
            Some(h) => if h@.len() > 0 {
                r@ == h@
            } else {
                r@.len() == 36 && uuid_ok(r@)
            },
            None => r@.len() == 36 && uuid_ok(r@),
        },
{
    match header {
        Some(h) => {
            if h.as_str().is_empty() {
                fresh_id()
            } else {
                h
            }
        },
        None => fresh_id(),
    }
}

} // verus!
