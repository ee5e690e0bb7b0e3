//! What the two remote calls have in common.

use vstd::prelude::*;
use vstd::string::*;

verus! {

/// What stands for the body of an answer that could not be read.
pub const UNKNOWN_ERROR: &'static str = "Unknown error";

/// The value of the `Authorization` header that carries a credential.
pub open spec fn bearer(credential: Seq<char>) -> Seq<char> {
    "Bearer "@ + credential
}

/// The body of a failed answer as it is reported.
pub open spec fn reported_body(body: Option<Seq<char>>) -> Seq<char> {
    match body {
        Some(text) => text,
        None => UNKNOWN_ERROR@,
    }
}

/// Writes the `Authorization` header for a credential.
pub fn bearer_header(credential: &str) -> (header: String)
    ensures
        header@ == bearer(credential@),
{
    String::from_str("Bearer ").concat(credential)
}

/// The body of a failed answer, or a fixed text where it could not be read.
pub fn body_or_unknown(body: Option<String>) -> (text: String)
    ensures
        text@ == reported_body(body.deep_view()),
{
    match body {
        Some(text) => text,
        None => String::from_str(UNKNOWN_ERROR),
    }
}

} // verus!
