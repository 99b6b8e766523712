//! Response and flash-message models handed back to the routing layer.
//!
//! Routes return these values explicitly instead of calling into the web
//! framework's global side channels; the routing layer renders them.

use vstd::prelude::*;

verus! {

/// The part of an HTTP response the core decides: a status code and, for
/// redirects, the target location.
#[derive(Debug)]
pub struct HttpResponse {
    pub status: u16,
    pub location: Option<String>,
}

/// A 303 See Other redirect to the given location.
pub fn see_other(location: &str) -> (r: HttpResponse)
    ensures
        r.status == 303,
        r.location matches Some(l) && l@ == location@,
{
    HttpResponse { status: 303, location: Some(String::from_str(location)) }
}

/// Severity of a user-visible flash message.
#[derive(Debug, PartialEq, Eq, Structural, Clone, Copy)]
pub enum FlashLevel {
    Info,
    Error,
}

/// A user-visible one-shot message rendered with the next response.
#[derive(Debug)]
pub struct Flash {
    pub level: FlashLevel,
    pub text: String,
}

/// An informational flash message.
pub fn flash_info(text: &str) -> (f: Flash)
    ensures
        f.level is Info,
        f.text@ == text@,
{
    Flash { level: FlashLevel::Info, text: String::from_str(text) }
}

/// An error flash message.
pub fn flash_error(text: &str) -> (f: Flash)
    ensures
        f.level is Error,
        f.text@ == text@,
{
    Flash { level: FlashLevel::Error, text: String::from_str(text) }
}

} // verus!
