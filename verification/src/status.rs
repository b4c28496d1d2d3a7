//! The status codes of HTTP responses.
use vstd::prelude::*;

verus! {

/// How the status code `code` is written with its reason, such as `404 Not Found`.
pub uninterp spec fn status_line(code: u16) -> Seq<char>;

/// Calls the `Display` of `reqwest::StatusCode`, which writes the code and the reason that
/// belongs to it. Claims that the text is a function of the code.
#[verifier::external_body]
pub(crate) fn status_text(code: u16) -> (r: String)
    ensures
        r@ == status_line(code),
{
    match reqwest::StatusCode::from_u16(code) {
        Ok(status) => status.to_string(),
        Err(e) => e.to_string(),
    }
}

/// The status says that the request was granted.
pub open spec fn is_success(code: u16) -> bool {
    200 <= code < 300
}

/// Whether the status says that the request was granted.
pub fn succeeded(code: u16) -> (r: bool)
    ensures
        r == is_success(code),
{
    200 <= code && code < 300
}

/// A request was granted just when its status is one of the two hundreds.
pub proof fn law_the_two_hundreds_are_granted(code: u16, r: bool)
    requires
        call_ensures(succeeded, (code,), r),
    ensures
        r <==> code / 100 == 2,
{
}

} // verus!
