//! The DeepSeek provider, reached through OrcaRouter.
use vstd::prelude::*;

verus! {

/// The model used through OrcaRouter.
pub const MODEL: &'static str = "deepseek/deepseek-v4-flash-free";

/// The error text for an unsuccessful HTTP status from OrcaRouter.
pub fn http_error_text(status: &str, body: &str) -> (r: String)
    ensures
        r@ == "OrcaRouter ("@ + status@ + "): "@ + body@,
{
    let mut r = crate::text::concat3("OrcaRouter (", status, "): ");
    crate::text::append(&mut r, body);
    r
}

/// The error text when OrcaRouter cannot be reached.
pub fn connect_error_text(err: &str) -> (r: String)
    ensures
        r@ == "خطا در اتصال به OrcaRouter: "@ + err@,
{
    crate::text::concat("خطا در اتصال به OrcaRouter: ", err)
}

} // verus!
