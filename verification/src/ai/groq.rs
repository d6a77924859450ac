//! The Groq provider (GPT-OSS 120B).
use vstd::prelude::*;

verus! {

/// The model used on Groq.
pub const MODEL: &'static str = "openai/gpt-oss-120b";

/// `groq::is_context_full_error`: the same test as Gemini's.
pub fn is_context_full_error(err: &str) -> (r: bool)
    ensures
        r == crate::ai::gemini::context_full_spec(crate::text::lowercase(err@)),
{
    crate::ai::gemini::is_context_full_error(err)
}

/// The error text for an unsuccessful HTTP status from Groq.
pub fn http_error_text(status: &str, body: &str) -> (r: String)
    ensures
        r@ == "Groq ("@ + status@ + "): "@ + body@,
{
    let mut r = crate::text::concat3("Groq (", status, "): ");
    crate::text::append(&mut r, body);
    r
}

/// The error text when Groq cannot be reached.
pub fn connect_error_text(err: &str) -> (r: String)
    ensures
        r@ == "خطا در اتصال به Groq: "@ + err@,
{
    crate::text::concat("خطا در اتصال به Groq: ", err)
}

} // verus!
