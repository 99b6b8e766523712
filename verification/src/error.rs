//! The application error type, the cause-chain formatter, and the mapping
//! from errors to the response the routing layer renders.

use vstd::prelude::*;

use crate::domain::ValidationError;
use crate::session_state::SessionError;
use crate::utils::{flash_error, see_other, Flash, HttpResponse};

verus! {

/// The application error: user-correctable validation failures, session
/// storage failures, and everything infrastructural.
#[derive(Debug)]
pub enum Error {
    UserValidationError(ValidationError),
    SessionStateError(SessionError),
    UnexpectedError(String),
}

impl Error {
    pub open spec fn message_spec(&self) -> Seq<char> {
        match self {
            Error::UserValidationError(_) => "Invalid input of user data."@,
            Error::SessionStateError(_) => "Session state error"@,
            Error::UnexpectedError(s) => s@,
        }
    }

    /// The top-level description of the error.
    pub fn message(&self) -> (r: String)
        ensures
            r@ == self.message_spec(),
    {
        match self {
            Error::UserValidationError(_) => String::from_str("Invalid input of user data."),
            Error::SessionStateError(_) => String::from_str("Session state error"),
            Error::UnexpectedError(s) => s.clone(),
        }
    }
}

/// The rendered causal chain of an error: the top message, a blank line,
/// then one `Caused by:` line per cause.
pub open spec fn chain_fmt(message: Seq<char>, causes: Seq<Seq<char>>) -> Seq<char>
    decreases causes.len(),
{
    if causes.len() == 0 {
        message + "\n\n"@
    } else {
        chain_fmt(message, causes.drop_last()) + "Caused by:\n\t"@ + causes.last() + "\n"@
    }
}

/// Render an error message and its chain of causes, outermost first.
pub fn error_chain_fmt(message: &str, causes: &Vec<String>) -> (r: String)
    ensures
        r@ == chain_fmt(message@, causes.deep_view()),
{
    let mut out = String::from_str(message);
    out.append("\n\n");
    let n = causes.len();
    let mut i: usize = 0;
    proof {
        assert(causes.deep_view().subrange(0, 0) =~= Seq::<Seq<char>>::empty());
        assert(out@ =~= chain_fmt(message@, causes.deep_view().subrange(0, 0)));
    }
    while i < n
        invariant
            i <= n,
            n == causes@.len(),
            causes.deep_view().len() == n,
            forall|j: int| 0 <= j < n ==> causes.deep_view()[j] == (#[trigger] causes@[j])@,
            out@ == chain_fmt(message@, causes.deep_view().subrange(0, i as int)),
        decreases n - i,
    {
        out.append("Caused by:\n\t");
        out.append(causes[i].as_str());
        out.append("\n");
        proof {
            assert(causes.deep_view().subrange(0, i + 1).drop_last() =~= causes
                .deep_view()
                .subrange(0, i as int));
            assert(causes.deep_view().subrange(0, i + 1).last() == causes.deep_view()[i as int]);
        }
        i = i + 1;
    }
    proof {
        assert(causes.deep_view().subrange(0, n as int) =~= causes.deep_view());
    }
    out
}

/// How the routing layer answers an error.
#[derive(Debug)]
pub enum ErrorDispatch {
    /// Flattened to an opaque 500-class response; the cause chain is logged,
    /// never shown to the end user.
    InternalServerError,
    /// A redirect with a user-visible flash message.
    RedirectWithFlash(HttpResponse, Flash),
}

/// Map an error to the response the routing layer renders: the
/// user-correctable errors — malformed input and a session-state failure
/// (treated as "not authenticated") — redirect to the login page with an
/// error flash; an infrastructure fault is a generic server error whose
/// cause is logged, never shown.
pub fn error_dispatch(e: &Error) -> (r: ErrorDispatch)
    ensures
        match e {
            Error::UnexpectedError(_) => r is InternalServerError,
            _ => ({
                &&& r matches ErrorDispatch::RedirectWithFlash(resp, flash)
                &&& resp.status == 303
                &&& resp.location matches Some(l) && l@ == "/login"@
                &&& flash.level is Error
                &&& flash.text@ == e.message_spec()
            }),
        },
{
    match e {
        Error::UnexpectedError(_) => ErrorDispatch::InternalServerError,
        _ => {
            let msg = e.message();
            ErrorDispatch::RedirectWithFlash(see_other("/login"), flash_error(msg.as_str()))
        },
    }
}

} // verus!
