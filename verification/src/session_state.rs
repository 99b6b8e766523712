//! Typed session state: the authenticated identity kept server-side under a
//! fixed key, bound to an opaque session identifier.

use vstd::prelude::*;

use crate::authentication::UserId;

verus! {

/// Failure of the session-storage collaborator; callers treat it as
/// "not authenticated".
#[derive(Debug)]
pub enum SessionError {
    Storage(String),
}

/// Relies on rand::random: an arbitrary identifier for a fresh session record.
#[verifier::external_body]
fn fresh_session_id() -> u64 {
    rand::random::<u64>()
}

/// A typed view of one client's server-side session: at most one `UserId`
/// entry, bound to an opaque session identifier.
#[derive(Debug)]
pub struct TypedSession {
    user_id: Option<UserId>,
    session_id: u64,
}

impl TypedSession {
    /// The identity the session holds, if any.
    pub closed spec fn stored_user_id(&self) -> Option<UserId> {
        self.user_id
    }

    /// The opaque identifier of the current session record.
    pub closed spec fn session_identifier(&self) -> u64 {
        self.session_id
    }

    /// A fresh session, created empty on first contact.
    pub fn new() -> (s: Self)
        ensures
            s.stored_user_id() is None,
    {
        TypedSession { user_id: None, session_id: fresh_session_id() }
    }

    /// Read the identity under the fixed key.
    pub fn get_user_id(&self) -> (r: Option<UserId>)
        ensures
            r == self.stored_user_id(),
    {
        self.user_id
    }

    /// Store the authenticated identity under the fixed key.
    pub fn insert_user_id(&mut self, id: UserId)
        ensures
            final(self).stored_user_id() == Some(id),
            final(self).session_identifier() == old(self).session_identifier(),
    {
        self.user_id = Some(id);
    }

    /// Purge the whole session record, forcing a fresh session identifier on
    /// the next response; mitigates session fixation.
    pub fn log_out(&mut self)
        ensures
            final(self).stored_user_id() is None,
    {
        self.user_id = None;
        self.session_id = fresh_session_id();
    }

    /// Rotate the session identifier while preserving the stored entries;
    /// called on every successful authentication.
    pub fn renew(&mut self)
        ensures
            final(self).stored_user_id() == old(self).stored_user_id(),
    {
        self.session_id = fresh_session_id();
    }
}

} // verus!
