//! Route handlers, reduced to what they decide: each takes the store and
//! session models plus the request's values, and returns the response and
//! flash message for the routing layer to render.

use vstd::prelude::*;

use crate::authentication::{
    authenticate, change_password_in_db, check_new_password, lemma_lookup_user_id_member,
    lemma_lookup_username_unique, lookup_user_id, lookup_username, accepts_exactly, AuthError,
    CredentialRecord, CredentialStore, PasswordFormData, UserId, strong_password, verify_outcome,
};
use crate::domain::{valid_user_name, UserName};
use crate::error::Error;
use crate::session_state::TypedSession;
use crate::utils::{flash_error, flash_info, see_other, Flash, HttpResponse};

verus! {

/// A login attempt succeeds when the username is well-formed, a credential
/// record is stored under it, and the password verifies against the stored
/// hash.
pub open spec fn login_succeeds(
    store: Seq<CredentialRecord>,
    username: Seq<char>,
    password: Seq<char>,
) -> bool {
    &&& valid_user_name(username)
    &&& lookup_username(store, username) matches Some(rec) && verify_outcome(
        password,
        rec.password_hash@,
    )
}

/// Handle a login request: on success the session is renewed and holds the
/// authenticated identity, and the client is redirected to the dashboard; on
/// any failure — malformed username, unknown username or wrong password, all
/// alike — the client is redirected back to the login page with the same
/// error flash, and the session is untouched.
pub fn login(
    store: &CredentialStore,
    session: &mut TypedSession,
    username: String,
    password: String,
) -> (r: (HttpResponse, Option<Flash>))
    ensures
        login_succeeds(store@, username@, password@) ==> ({
            &&& r.0.status == 303
            &&& r.0.location matches Some(l) && l@ == "/restricted/dashboard"@
            &&& r.1 is None
            &&& lookup_username(store@, username@) matches Some(rec)
                && final(session).stored_user_id() == Some(rec.user_id)
        }),
        !login_succeeds(store@, username@, password@) ==> ({
            &&& r.0.status == 303
            &&& r.0.location matches Some(l) && l@ == "/login"@
            &&& r.1 matches Some(f) && f.level is Error && f.text@
                == "Failed Login Authentication"@
            &&& final(session).stored_user_id() == old(session).stored_user_id()
        }),
{
    match UserName::parse(username) {
        Ok(name) => {
            match authenticate(store, &name, &password) {
                Ok(uid) => {
                    session.renew();
                    session.insert_user_id(uid);
                    (see_other("/restricted/dashboard"), None)
                },
                Err(_) => (see_other("/login"), Some(flash_error("Failed Login Authentication"))),
            }
        },
        Err(_) => (see_other("/login"), Some(flash_error("Failed Login Authentication"))),
    }
}

/// Log the user out: the session record is purged and the client is
/// redirected to the login page with a confirmation flash.
pub fn log_out(session: &mut TypedSession) -> (r: (HttpResponse, Flash))
    ensures
        final(session).stored_user_id() is None,
        r.0.status == 303,
        r.0.location matches Some(l) && l@ == "/login"@,
        r.1.level is Info,
        r.1.text@ == "You have successfully logged out."@,
{
    session.log_out();
    (see_other("/login"), flash_info("You have successfully logged out."))
}

/// Render data for the restricted dashboard: the username of the
/// authenticated identity.
pub fn restricted_dashboard(store: &CredentialStore, user_id: UserId) -> (r: Result<
    String,
    Error,
>)
    ensures
        r matches Ok(name) ==> ({
            &&& lookup_user_id(store@, user_id) matches Some(rec)
            &&& name@ == rec.username@
        }),
        r matches Err(e) ==> lookup_user_id(store@, user_id) is None && e is UnexpectedError,
{
    match store.get_username(user_id) {
        Some(name) => Ok(String::from_str(name.as_ref())),
        None => Err(Error::UnexpectedError(String::from_str("unknown user id"))),
    }
}

/// All checks a password-change request must pass against the record of the
/// requesting user.
pub open spec fn change_allowed(form: &PasswordFormData, rec: CredentialRecord) -> bool {
    &&& form.new_password@ == form.new_password_confirmation@
    &&& strong_password(form.new_password@)
    &&& verify_outcome(form.current_password@, rec.password_hash@)
}

/// Handle a password-change request for the authenticated user: reject a
/// mismatched confirmation, a new password failing the length policy, or a
/// wrong current password — each with its flash message and with the store
/// untouched; otherwise hash the new password and overwrite the stored hash
/// in a single update. An unknown user id or a hashing fault is an
/// infrastructure error, with the store untouched.
pub fn change_password(store: &mut CredentialStore, user_id: UserId, form: &PasswordFormData)
    -> (r: Result<(HttpResponse, Flash), Error>)
    requires
        old(store).wf(),
    ensures
        final(store).wf(),
        r is Err ==> final(store)@ == old(store)@,
        r matches Err(e) ==> e is UnexpectedError,
        lookup_user_id(old(store)@, user_id) is None ==> r is Err,
        lookup_user_id(old(store)@, user_id) matches Some(rec) && !change_allowed(form, rec)
            ==> r is Ok,
        r is Err ==> (lookup_user_id(old(store)@, user_id) is None || (lookup_user_id(
            old(store)@,
            user_id,
        ) matches Some(rec) && change_allowed(form, rec))),
        ({
            let found = lookup_user_id(old(store)@, user_id);
            r matches Ok((resp, flash)) ==> ({
                &&& found matches Some(rec)
                &&& resp.status == 303
                &&& resp.location matches Some(l) && l@ == "/restricted/password"@
                &&& !change_allowed(form, rec) ==> ({
                    &&& final(store)@ == old(store)@
                    &&& flash.level is Error
                    &&& form.new_password@ != form.new_password_confirmation@ ==> flash.text@
                        == (AuthError::PasswordMismatch).message_spec()
                    &&& form.new_password@ == form.new_password_confirmation@
                        && !strong_password(form.new_password@) ==> flash.text@
                        == (AuthError::WeakPassword).message_spec()
                    &&& form.new_password@ == form.new_password_confirmation@
                        && strong_password(form.new_password@) && !verify_outcome(
                        form.current_password@,
                        rec.password_hash@,
                    ) ==> flash.text@ == (AuthError::InvalidCredentials).message_spec()
                })
                &&& change_allowed(form, rec) ==> ({
                    &&& flash.level is Info
                    &&& flash.text@ == "Your password has been changed."@
                    &&& final(store)@.len() == old(store)@.len()
                    &&& forall|i: int|
                        0 <= i < old(store)@.len() && old(store)@[i].user_id != user_id
                            ==> final(store)@[i] == old(store)@[i]
                    &&& forall|i: int|
                        0 <= i < old(store)@.len() && old(store)@[i].user_id == user_id ==> ({
                            &&& final(store)@[i].user_id == user_id
                            &&& final(store)@[i].username@ == old(store)@[i].username@
                            &&& accepts_exactly(
                                form.new_password@,
                                final(store)@[i].password_hash@,
                            )
                        })
                })
            })
        }),
{
    proof {
        lemma_lookup_user_id_member(store@, user_id);
        if lookup_user_id(store@, user_id) is Some {
            let rec = lookup_user_id(store@, user_id)->0;
            let i = choose|i: int|
                0 <= i < store@.len() && store@[i] == rec && rec.user_id == user_id;
            assert forall|j: int, k: int| 0 <= j < k < store@.len() implies (#[trigger] store@[j]).username@
                != (#[trigger] store@[k]).username@ by {}
            lemma_lookup_username_unique(store@, i);
        }
    }
    let check = {
        let name = match store.get_username(user_id) {
            Some(n) => n,
            None => {
                return Err(Error::UnexpectedError(String::from_str("unknown user id")));
            },
        };
        check_new_password(store, name, form)
    };
    if let Err(e) = check {
        let msg = e.message();
        return Ok((see_other("/restricted/password"), flash_error(msg.as_str())));
    }
    match change_password_in_db(store, user_id, form.new_password.clone()) {
        Ok(()) => Ok((see_other("/restricted/password"), flash_info(
            "Your password has been changed.",
        ))),
        Err(e) => {
            let msg = e.message();
            Err(Error::UnexpectedError(msg))
        },
    }
}

} // verus!
