//! Password hashing and verification, the credential store, the
//! authenticator, the password-change checks, and the identity-extraction
//! step run before protected routes.

use argon2::{PasswordHasher, PasswordVerifier};
use vstd::prelude::*;

use crate::domain::UserName;
use crate::session_state::SessionError;
use crate::utils::{see_other, HttpResponse};

verus! {

/// An opaque identifier for an authenticated principal.
#[derive(Debug, Clone, Copy, PartialEq, Eq, Structural, Hash)]
pub struct UserId(pub u128);

/// Authentication and password-change failures.
#[derive(Debug)]
pub enum AuthError {
    /// Unknown username, wrong password or malformed stored hash — one error
    /// for all of them, so a caller cannot tell which failed.
    InvalidCredentials,
    /// The new password and its confirmation differ.
    PasswordMismatch,
    /// The new password fails the length policy.
    WeakPassword,
    /// Storage or hashing infrastructure fault.
    Unexpected(String),
}

impl AuthError {
    pub open spec fn message_spec(&self) -> Seq<char> {
        match self {
            AuthError::InvalidCredentials => "The current password is incorrect."@,
            AuthError::PasswordMismatch => "You entered two different new passwords - the field values must match."@,
            AuthError::WeakPassword => "The new password must be between 12 and 128 characters long."@,
            AuthError::Unexpected(s) => s@,
        }
    }

    /// The user-facing description of the failure.
    pub fn message(&self) -> (r: String)
        ensures
            r@ == self.message_spec(),
    {
        match self {
            AuthError::InvalidCredentials => String::from_str(
                "The current password is incorrect.",
            ),
            AuthError::PasswordMismatch => String::from_str(
                "You entered two different new passwords - the field values must match.",
            ),
            AuthError::WeakPassword => String::from_str(
                "The new password must be between 12 and 128 characters long.",
            ),
            AuthError::Unexpected(s) => s.clone(),
        }
    }
}

/// What argon2's verification returns on a given password and PHC string;
/// the outcome is a fixed function of the two arguments alone (the salt and
/// the work parameters are embedded in the PHC string).
pub uninterp spec fn verify_outcome(password: Seq<char>, phc: Seq<char>) -> bool;

/// A PHC string that verifies the given password and rejects every other.
pub open spec fn accepts_exactly(password: Seq<char>, phc: Seq<char>) -> bool {
    &&& verify_outcome(password, phc)
    &&& forall|other: Seq<char>| other != password ==> !verify_outcome(other, phc)
}

/// Relies on argon2's PasswordHasher::hash_password: Argon2id with the
/// default work parameters and a fresh random salt yields a PHC string
/// against which verification accepts exactly the hashed password (digest
/// collisions are beyond this model); `None` reports a hashing fault.
#[verifier::external_body]
fn argon2_hash(password: &str) -> (r: Option<String>)
    ensures
        r matches Some(h) ==> accepts_exactly(password@, h@),
{
    match argon2::Argon2::default().hash_password(password.as_bytes()) {
        Ok(h) => Some(h.to_string()),
        Err(_) => None,
    }
}

/// Relies on argon2's PasswordVerifier::verify_password: re-derives the hash
/// from the password with the parameters embedded in the PHC string and
/// compares digests in constant time; false on mismatch or on a malformed
/// PHC string, and a fixed function of the two arguments alone.
#[verifier::external_body]
fn argon2_verify(password: &str, phc: &str) -> (r: bool)
    ensures
        r == verify_outcome(password@, phc@),
{
    argon2::Argon2::default().verify_password(password.as_bytes(), phc).is_ok()
}

/// Hash a password with Argon2id and a fresh random salt; the salt and the
/// work parameters are embedded in the returned PHC string.
pub fn compute_password_hash(password: &String) -> (r: Result<String, AuthError>)
    ensures
        r matches Ok(h) ==> accepts_exactly(password@, h@),
        r matches Err(e) ==> e is Unexpected,
{
    match argon2_hash(password.as_str()) {
        Some(h) => Ok(h),
        None => Err(AuthError::Unexpected(String::from_str("failed to hash the password"))),
    }
}

/// Verify a password against a stored PHC string; mismatch and malformed
/// stored hash yield the same error.
pub fn verify_password_hash(password: &String, stored_hash: &String) -> (r: Result<
    (),
    AuthError,
>)
    ensures
        r is Ok <==> verify_outcome(password@, stored_hash@),
        r matches Err(e) ==> e is InvalidCredentials,
{
    if argon2_verify(password.as_str(), stored_hash.as_str()) {
        Ok(())
    } else {
        Err(AuthError::InvalidCredentials)
    }
}

/// A fresh password hash verifies the password it was computed from and no
/// other: hashing then verifying succeeds, and after a change to a different
/// password the old one is rejected.
pub proof fn lemma_hash_accepts_exactly(password: Seq<char>, other: Seq<char>, phc: Seq<char>)
    requires
        accepts_exactly(password, phc),
    ensures
        verify_outcome(password, phc),
        other != password ==> !verify_outcome(other, phc),
{
}

/// A persisted `(user_id, username, password_hash)` row.
#[derive(Debug)]
pub struct CredentialRecord {
    pub user_id: UserId,
    pub username: UserName,
    pub password_hash: String,
}

/// The first record with the given username, if any.
pub open spec fn lookup_username(s: Seq<CredentialRecord>, name: Seq<char>) -> Option<
    CredentialRecord,
>
    decreases s.len(),
{
    if s.len() == 0 {
        None
    } else if s[0].username@ == name {
        Some(s[0])
    } else {
        lookup_username(s.drop_first(), name)
    }
}

/// The first record with the given user id, if any.
pub open spec fn lookup_user_id(s: Seq<CredentialRecord>, id: UserId) -> Option<CredentialRecord>
    decreases s.len(),
{
    if s.len() == 0 {
        None
    } else if s[0].user_id == id {
        Some(s[0])
    } else {
        lookup_user_id(s.drop_first(), id)
    }
}

proof fn lemma_lookup_username_skip(s: Seq<CredentialRecord>, name: Seq<char>, i: int)
    requires
        0 <= i <= s.len(),
        forall|j: int| 0 <= j < i ==> (#[trigger] s[j]).username@ != name,
    ensures
        lookup_username(s, name) == lookup_username(s.skip(i), name),
    decreases i,
{
    if i == 0 {
        assert(s.skip(0) =~= s);
    } else {
        lemma_lookup_username_skip(s, name, i - 1);
        assert(s.skip(i - 1)[0] == s[i - 1]);
        assert(s.skip(i - 1).drop_first() =~= s.skip(i));
    }
}

proof fn lemma_lookup_user_id_skip(s: Seq<CredentialRecord>, id: UserId, i: int)
    requires
        0 <= i <= s.len(),
        forall|j: int| 0 <= j < i ==> (#[trigger] s[j]).user_id != id,
    ensures
        lookup_user_id(s, id) == lookup_user_id(s.skip(i), id),
    decreases i,
{
    if i == 0 {
        assert(s.skip(0) =~= s);
    } else {
        lemma_lookup_user_id_skip(s, id, i - 1);
        assert(s.skip(i - 1)[0] == s[i - 1]);
        assert(s.skip(i - 1).drop_first() =~= s.skip(i));
    }
}

/// A record found by user id is a member of the sequence.
pub proof fn lemma_lookup_user_id_member(s: Seq<CredentialRecord>, id: UserId)
    ensures
        lookup_user_id(s, id) matches Some(rec) ==> exists|i: int|
            0 <= i < s.len() && s[i] == rec && rec.user_id == id,
    decreases s.len(),
{
    if s.len() > 0 && s[0].user_id != id {
        lemma_lookup_user_id_member(s.drop_first(), id);
        if lookup_user_id(s, id) is Some {
            let rec = lookup_user_id(s, id)->0;
            let i = choose|i: int|
                0 <= i < s.drop_first().len() && s.drop_first()[i] == rec && rec.user_id == id;
            assert(s[i + 1] == rec);
        }
    }
}

/// With pairwise-distinct usernames, looking up the username of the record
/// at index `i` finds exactly that record.
pub proof fn lemma_lookup_username_unique(s: Seq<CredentialRecord>, i: int)
    requires
        0 <= i < s.len(),
        forall|j: int, k: int|
            0 <= j < k < s.len() ==> (#[trigger] s[j]).username@ != (#[trigger] s[k]).username@,
    ensures
        lookup_username(s, s[i].username@) == Some(s[i]),
    decreases s.len(),
{
    if i > 0 {
        assert(s[0].username@ != s[i].username@);
        assert forall|j: int, k: int| 0 <= j < k < s.drop_first().len() implies (#[trigger] s
            .drop_first()[j]).username@ != (#[trigger] s.drop_first()[k]).username@ by {
            assert(s.drop_first()[j] == s[j + 1]);
            assert(s.drop_first()[k] == s[k + 1]);
        }
        lemma_lookup_username_unique(s.drop_first(), i - 1);
        assert(s.drop_first()[i - 1] == s[i]);
    }
}

/// The credential rows the core reads and writes, keyed by unique usernames
/// and unique user ids.
#[derive(Debug)]
pub struct CredentialStore {
    records: Vec<CredentialRecord>,
}

impl View for CredentialStore {
    type V = Seq<CredentialRecord>;

    closed spec fn view(&self) -> Seq<CredentialRecord> {
        self.records@
    }
}

impl CredentialStore {
    /// Usernames and user ids are pairwise distinct.
    pub open spec fn wf(&self) -> bool {
        forall|j: int, k: int|
            0 <= j < k < self@.len() ==> (#[trigger] self@[j]).username@ != (
            #[trigger] self@[k]).username@ && self@[j].user_id != self@[k].user_id
    }

    /// An empty store.
    pub fn new() -> (s: Self)
        ensures
            s@.len() == 0,
            s.wf(),
    {
        CredentialStore { records: Vec::new() }
    }

    fn find_index_by_username(&self, username: &UserName) -> (r: Option<usize>)
        ensures
            r matches Some(i) ==> ({
                &&& i < self@.len()
                &&& self@[i as int].username@ == username@
                &&& lookup_username(self@, username@) == Some(self@[i as int])
            }),
            r is None ==> ({
                &&& lookup_username(self@, username@) is None
                &&& forall|j: int| 0 <= j < self@.len() ==> (#[trigger] self@[j]).username@
                    != username@
            }),
    {
        let n = self.records.len();
        let mut i: usize = 0;
        while i < n
            invariant
                n == self@.len(),
                i <= n,
                forall|j: int| 0 <= j < i ==> (#[trigger] self@[j]).username@ != username@,
            decreases n - i,
        {
            if self.records[i].username.equals(username) {
                proof {
                    lemma_lookup_username_skip(self@, username@, i as int);
                    assert(self@.skip(i as int)[0] == self@[i as int]);
                }
                return Some(i);
            }
            i = i + 1;
        }
        proof {
            lemma_lookup_username_skip(self@, username@, n as int);
        }
        None
    }

    fn find_index_by_user_id(&self, user_id: UserId) -> (r: Option<usize>)
        ensures
            r matches Some(i) ==> ({
                &&& i < self@.len()
                &&& self@[i as int].user_id == user_id
                &&& lookup_user_id(self@, user_id) == Some(self@[i as int])
            }),
            r is None ==> ({
                &&& lookup_user_id(self@, user_id) is None
                &&& forall|j: int| 0 <= j < self@.len() ==> (#[trigger] self@[j]).user_id
                    != user_id
            }),
    {
        let n = self.records.len();
        let mut i: usize = 0;
        while i < n
            invariant
                n == self@.len(),
                i <= n,
                forall|j: int| 0 <= j < i ==> (#[trigger] self@[j]).user_id != user_id,
            decreases n - i,
        {
            if self.records[i].user_id == user_id {
                proof {
                    lemma_lookup_user_id_skip(self@, user_id, i as int);
                    assert(self@.skip(i as int)[0] == self@[i as int]);
                }
                return Some(i);
            }
            i = i + 1;
        }
        proof {
            lemma_lookup_user_id_skip(self@, user_id, n as int);
        }
        None
    }

    /// The credential record stored under the given username, if any.
    pub fn get_credentials(&self, username: &UserName) -> (r: Option<&CredentialRecord>)
        ensures
            r matches Some(rec) ==> lookup_username(self@, username@) == Some(*rec),
            r is None ==> lookup_username(self@, username@) is None,
    {
        match self.find_index_by_username(username) {
            Some(i) => Some(&self.records[i]),
            None => None,
        }
    }

    /// The username stored under the given user id, if any.
    pub fn get_username(&self, user_id: UserId) -> (r: Option<&UserName>)
        ensures
            r matches Some(name) ==> ({
                &&& lookup_user_id(self@, user_id) matches Some(rec)
                &&& rec.username@ == name@
            }),
            r is None ==> lookup_user_id(self@, user_id) is None,
    {
        match self.find_index_by_user_id(user_id) {
            Some(i) => Some(&self.records[i].username),
            None => None,
        }
    }

    /// Provision an account; rejects a username or user id already present.
    pub fn add_account(&mut self, user_id: UserId, username: UserName, password_hash: String)
        -> (r: Result<(), AuthError>)
        requires
            old(self).wf(),
        ensures
            final(self).wf(),
            r is Ok ==> ({
                &&& lookup_username(old(self)@, username@) is None
                &&& lookup_user_id(old(self)@, user_id) is None
                &&& final(self)@.len() == old(self)@.len() + 1
                &&& forall|i: int| 0 <= i < old(self)@.len() ==> final(self)@[i] == old(self)@[i]
                &&& final(self)@.last().user_id == user_id
                &&& final(self)@.last().username@ == username@
                &&& final(self)@.last().password_hash@ == password_hash@
            }),
            r matches Err(e) ==> ({
                &&& final(self)@ == old(self)@
                &&& e is Unexpected
                &&& lookup_username(old(self)@, username@) is Some || lookup_user_id(
                    old(self)@,
                    user_id,
                ) is Some
            }),
    {
        if self.find_index_by_username(&username).is_some() {
            return Err(AuthError::Unexpected(String::from_str("username already registered")));
        }
        if self.find_index_by_user_id(user_id).is_some() {
            return Err(AuthError::Unexpected(String::from_str("user id already registered")));
        }
        self.records.push(CredentialRecord { user_id, username, password_hash });
        Ok(())
    }

    /// Overwrite the stored hash for the given user id in a single update.
    pub fn update_password_hash(&mut self, user_id: UserId, new_hash: String) -> (r: Result<
        (),
        AuthError,
    >)
        requires
            old(self).wf(),
        ensures
            final(self).wf(),
            r is Ok ==> ({
                &&& lookup_user_id(old(self)@, user_id) is Some
                &&& final(self)@.len() == old(self)@.len()
                &&& forall|i: int|
                    0 <= i < old(self)@.len() && old(self)@[i].user_id != user_id
                        ==> final(self)@[i] == old(self)@[i]
                &&& forall|i: int|
                    0 <= i < old(self)@.len() && old(self)@[i].user_id == user_id ==> ({
                        &&& final(self)@[i].user_id == user_id
                        &&& final(self)@[i].username@ == old(self)@[i].username@
                        &&& final(self)@[i].password_hash@ == new_hash@
                    })
            }),
            r matches Err(e) ==> ({
                &&& final(self)@ == old(self)@
                &&& lookup_user_id(old(self)@, user_id) is None
                &&& e is Unexpected
            }),
    {
        match self.find_index_by_user_id(user_id) {
            Some(i) => {
                self.records[i].password_hash = new_hash;
                Ok(())
            },
            None => Err(AuthError::Unexpected(String::from_str("unknown user id"))),
        }
    }
}

/// Validate a username/password pair against the store.
///
/// An unknown username and a known username with a wrong password return the
/// same `InvalidCredentials` error, and both paths run one hash
/// verification, so response latency does not reveal which failed.
pub fn authenticate(store: &CredentialStore, username: &UserName, password: &String) -> (r:
    Result<UserId, AuthError>)
    ensures
        ({
            let found = lookup_username(store@, username@);
            match r {
                Ok(uid) => ({
                    &&& found matches Some(rec)
                    &&& verify_outcome(password@, rec.password_hash@)
                    &&& uid == rec.user_id
                }),
                Err(e) => ({
                    &&& e is InvalidCredentials
                    &&& found matches Some(rec) ==> !verify_outcome(
                        password@,
                        rec.password_hash@,
                    )
                }),
            }
        }),
{
    match store.get_credentials(username) {
        Some(rec) => {
            match verify_password_hash(password, &rec.password_hash) {
                Ok(_) => Ok(rec.user_id),
                Err(_) => Err(AuthError::InvalidCredentials),
            }
        },
        None => {
            // Normalize timing between "unknown user" and "wrong password":
            // run one verification against a fixed fallback hash, discarded.
            let _ = argon2_verify(
                password.as_str(),
                "$argon2id$v=19$m=15000,t=2,p=1$gZiV/M1gPc22ElAH/Jh1Hw$CWOrkoo7oJBQ/iyh7uJ0LO2aLEfrHwTWllSAxT0zRno",
            );
            Err(AuthError::InvalidCredentials)
        },
    }
}

/// Form data of the password-change request.
#[derive(Debug)]
pub struct PasswordFormData {
    pub current_password: String,
    pub new_password: String,
    pub new_password_confirmation: String,
}

/// The length policy a new password must satisfy.
pub open spec fn strong_password(s: Seq<char>) -> bool {
    12 <= s.len() <= 128
}

/// Validate a password-change request: the confirmation must match, the new
/// password must satisfy the policy, and the current password must
/// re-authenticate the user.
pub fn check_new_password(store: &CredentialStore, username: &UserName, form: &PasswordFormData)
    -> (r: Result<(), AuthError>)
    ensures
        ({
            let found = lookup_username(store@, username@);
            match r {
                Ok(()) => ({
                    &&& form.new_password@ == form.new_password_confirmation@
                    &&& strong_password(form.new_password@)
                    &&& found matches Some(rec)
                    &&& verify_outcome(form.current_password@, rec.password_hash@)
                }),
                Err(AuthError::PasswordMismatch) => form.new_password@
                    != form.new_password_confirmation@,
                Err(AuthError::WeakPassword) => ({
                    &&& form.new_password@ == form.new_password_confirmation@
                    &&& !strong_password(form.new_password@)
                }),
                Err(AuthError::InvalidCredentials) => ({
                    &&& form.new_password@ == form.new_password_confirmation@
                    &&& strong_password(form.new_password@)
                    &&& found matches Some(rec) ==> !verify_outcome(
                        form.current_password@,
                        rec.password_hash@,
                    )
                }),
                Err(_) => false,
            }
        }),
{
    if !(form.new_password == form.new_password_confirmation) {
        return Err(AuthError::PasswordMismatch);
    }
    let len = form.new_password.as_str().unicode_len();
    if len < 12 || len > 128 {
        return Err(AuthError::WeakPassword);
    }
    match authenticate(store, username, &form.current_password) {
        Ok(_) => Ok(()),
        Err(_) => Err(AuthError::InvalidCredentials),
    }
}

/// Hash the new password and overwrite the stored hash for the user in a
/// single update; on any failure the store is unchanged.
pub fn change_password_in_db(store: &mut CredentialStore, user_id: UserId, new_password: String)
    -> (r: Result<(), AuthError>)
    requires
        old(store).wf(),
    ensures
        final(store).wf(),
        r is Ok ==> ({
            &&& lookup_user_id(old(store)@, user_id) is Some
            &&& final(store)@.len() == old(store)@.len()
            &&& forall|i: int|
                0 <= i < old(store)@.len() && old(store)@[i].user_id != user_id
                    ==> final(store)@[i] == old(store)@[i]
            &&& forall|i: int|
                0 <= i < old(store)@.len() && old(store)@[i].user_id == user_id ==> ({
                    &&& final(store)@[i].user_id == user_id
                    &&& final(store)@[i].username@ == old(store)@[i].username@
                    &&& accepts_exactly(new_password@, final(store)@[i].password_hash@)
                })
        }),
        r matches Err(e) ==> final(store)@ == old(store)@ && e is Unexpected,
        lookup_user_id(old(store)@, user_id) is None ==> r is Err,
{
    let new_hash = match compute_password_hash(&new_password) {
        Ok(h) => h,
        Err(e) => {
            return Err(e);
        },
    };
    store.update_password_hash(user_id, new_hash)
}

/// What the identity-extraction step decides for one request to a protected
/// route.
#[derive(Debug)]
pub enum IdentityOutcome {
    /// The request proceeds with this identity attached.
    Authenticated(UserId),
    /// The request is short-circuited with a redirect to the login page.
    Redirect(HttpResponse),
}

/// Decide one request to a protected route from the session read: an
/// identity proceeds, anything else — an empty session or a storage failure —
/// redirects to the login page without invoking the handler.
pub fn extract_identity(session_read: Result<Option<UserId>, SessionError>) -> (r:
    IdentityOutcome)
    ensures
        match session_read {
            Ok(Some(id)) => r matches IdentityOutcome::Authenticated(u) && u == id,
            _ => r matches IdentityOutcome::Redirect(resp) && resp.status == 303 && (
            resp.location matches Some(l) && l@ == "/login"@),
        },
{
    match session_read {
        Ok(Some(id)) => IdentityOutcome::Authenticated(id),
        _ => IdentityOutcome::Redirect(see_other("/login")),
    }
}

} // verus!
