//! Envelopes shared by every handler: the failure shape, the welcome
//! response and the healthcheck response.

use vstd::prelude::*;
use vstd::string::StringExecFns;

use crate::model::error::{detail_of, status_of, AppError};
use crate::model::http::Response;

verus! {

/// The envelope wrapped around every failure: the error's status code, its
/// public message, its diagnostic detail, and no data.
pub fn error_response<T>(correlation_id: String, e: AppError) -> (r: (u16, Response<T>))
    ensures
        r.0 == status_of(e.code),
        r.1.correlation_id == correlation_id,
        r.1.message@ == e.message@,
        r.1.error@ == detail_of(e.code),
        r.1.data is None,
{
    let status = e.get_http_status();
    let message = e.get_message();
    let error = e.get_error();
    (status, Response { correlation_id, message, error, data: None })
}

/// The welcome envelope served at the root path.
pub fn handler_index(app_name: &str, correlation_id: String) -> (r: (u16, Response<()>))
    ensures
        r.0 == 200,
        r.1.correlation_id == correlation_id,
        r.1.message@ == "Welcome to "@ + app_name@ + "!"@,
        r.1.error@ == Seq::<char>::empty(),
        r.1.data is None,
{
    let message = String::from_str("Welcome to ").concat(app_name).concat("!");
    (200, Response { correlation_id, message, error: String::new(), data: None })
}

/// The healthcheck envelope.
pub fn handler_healthcheck(correlation_id: String) -> (r: (u16, Response<()>))
    ensures
        r.0 == 200,
        r.1.correlation_id == correlation_id,
        r.1.message@ == "ok"@,
        r.1.error@ == Seq::<char>::empty(),
        r.1.data is None,
{
    (200, Response { correlation_id, message: String::from_str("ok"), error: String::new(), data: None })
}

} // verus!
