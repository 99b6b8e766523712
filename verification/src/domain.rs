//! Validated value types: `UserName`, `UserEmail`, `UserToken`.
//!
//! Each type is a self-validating wrapper around a raw string: `parse`
//! checks the invariant eagerly, so a constructed value never violates it.

use rand::Rng;
use vstd::prelude::*;

verus! {

/// Validation error for domain data: carries the offending raw string
/// and which invariant failed.
#[derive(Debug)]
pub enum ValidationError {
    InvalidEmail(String),
    InvalidName(String),
    InvalidToken(String),
}

impl ValidationError {
    pub open spec fn message_spec(&self) -> Seq<char> {
        match self {
            ValidationError::InvalidEmail(raw) => "`"@ + raw@ + "` is not a valid user email."@,
            ValidationError::InvalidName(raw) => "`"@ + raw@ + "` is not a valid user name."@,
            ValidationError::InvalidToken(raw) => "`"@ + raw@ + "` is not a valid user token."@,
        }
    }

    /// The user-facing description of the failed invariant.
    pub fn message(&self) -> (r: String)
        ensures
            r@ == self.message_spec(),
    {
        let mut out = String::new();
        out.append("`");
        match self {
            ValidationError::InvalidEmail(raw) => {
                out.append(raw.as_str());
                out.append("` is not a valid user email.");
            },
            ValidationError::InvalidName(raw) => {
                out.append(raw.as_str());
                out.append("` is not a valid user name.");
            },
            ValidationError::InvalidToken(raw) => {
                out.append(raw.as_str());
                out.append("` is not a valid user token.");
            },
        }
        out
    }
}

/// A user name is non-empty and of bounded length.
pub open spec fn valid_user_name(s: Seq<char>) -> bool {
    1 <= s.len() <= 256
}

/// Validated wrapper around a user name.
#[derive(Debug)]
pub struct UserName {
    user_name: String,
}

impl View for UserName {
    type V = Seq<char>;

    closed spec fn view(&self) -> Seq<char> {
        self.user_name@
    }
}

impl UserName {
    /// Check the wrapped string against the user-name invariant.
    pub fn is_valid(&self) -> (r: Result<&str, ValidationError>)
        ensures
            r matches Ok(s) ==> valid_user_name(self@) && s@ == self@,
            r matches Err(e) ==> ({
                &&& !valid_user_name(self@)
                &&& e matches ValidationError::InvalidName(raw)
                &&& raw@ == self@
            }),
    {
        let n = self.user_name.as_str().unicode_len();
        if n < 1 || n > 256 {
            Err(ValidationError::InvalidName(self.user_name.clone()))
        } else {
            Ok(self.user_name.as_str())
        }
    }

    /// Parse an untrusted string as a user name; never yields an invalid value.
    pub fn parse(s: String) -> (r: Result<UserName, ValidationError>)
        ensures
            r matches Ok(name) ==> valid_user_name(s@) && name@ == s@,
            r matches Err(e) ==> ({
                &&& !valid_user_name(s@)
                &&& e matches ValidationError::InvalidName(raw)
                &&& raw@ == s@
            }),
    {
        let name = UserName { user_name: s };
        match name.is_valid() {
            Ok(_) => Ok(name),
            Err(e) => Err(e),
        }
    }

    /// The wrapped string.
    pub fn as_ref(&self) -> (r: &str)
        ensures
            r@ == self@,
    {
        self.user_name.as_str()
    }

    /// Whether two user names wrap the same string.
    pub fn equals(&self, other: &UserName) -> (r: bool)
        ensures
            r == (self@ == other@),
    {
        self.user_name == other.user_name
    }
}

/// What `char::is_alphanumeric` returns on a given character; the Unicode
/// classification is a fixed function of the character alone.
pub uninterp spec fn char_alphanumeric(c: char) -> bool;

/// An ASCII letter or digit.
pub open spec fn ascii_alphanumeric(c: char) -> bool {
    ||| 'a' <= c <= 'z'
    ||| 'A' <= c <= 'Z'
    ||| '0' <= c <= '9'
}

/// Relies on char::is_alphanumeric: a fixed Unicode classification of the
/// character; every ASCII letter and digit is alphanumeric.
pub assume_specification[ char::is_alphanumeric ](c: char) -> (r: bool)
    ensures
        r == char_alphanumeric(c),
        ascii_alphanumeric(c) ==> r,
;

/// Relies on String::push: appends the given character to the end of the string.
pub assume_specification[ String::push ](s: &mut String, c: char)
    ensures
        final(s)@ == old(s)@.push(c),
;

/// Relies on rand's Alphanumeric distribution sampled from thread_rng: the
/// sample is uniform over ASCII letters and digits, so the returned character
/// is ASCII alphanumeric, and char::is_alphanumeric accepts every such
/// character.
#[verifier::external_body]
fn sample_alphanumeric_char() -> (c: char)
    ensures
        ascii_alphanumeric(c),
        char_alphanumeric(c),
{
    char::from(rand::thread_rng().sample(rand::distributions::Alphanumeric))
}

/// A user token is exactly 25 characters long, each of them alphanumeric.
pub open spec fn valid_token(s: Seq<char>) -> bool {
    &&& s.len() == 25
    &&& forall|i: int| 0 <= i < s.len() ==> char_alphanumeric(#[trigger] s[i])
}

/// A 25-character case-sensitive alphanumeric user token.
#[derive(Debug)]
pub struct UserToken {
    user_token: String,
}

impl View for UserToken {
    type V = Seq<char>;

    closed spec fn view(&self) -> Seq<char> {
        self.user_token@
    }
}

impl UserToken {
    /// Generate a random 25-characters-long case-sensitive user token; every
    /// character is an ASCII letter or digit.
    pub fn generate_user_token() -> (r: Self)
        ensures
            valid_token(r@),
            forall|i: int| 0 <= i < r@.len() ==> ascii_alphanumeric(#[trigger] r@[i]),
    {
        let mut token = String::new();
        let mut i: usize = 0;
        while i < 25
            invariant
                i <= 25,
                token@.len() == i,
                forall|j: int| 0 <= j < i ==> char_alphanumeric(#[trigger] token@[j]),
                forall|j: int| 0 <= j < i ==> ascii_alphanumeric(#[trigger] token@[j]),
            decreases 25 - i,
        {
            let c = sample_alphanumeric_char();
            token.push(c);
            i = i + 1;
        }
        UserToken { user_token: token }
    }

    /// Check that every character of the token is alphanumeric and that the
    /// token is exactly 25 characters long.
    pub fn is_valid(&self) -> (r: Result<&str, ValidationError>)
        ensures
            r matches Ok(s) ==> valid_token(self@) && s@ == self@,
            r matches Err(e) ==> ({
                &&& !valid_token(self@)
                &&& e matches ValidationError::InvalidToken(raw)
                &&& raw@ == self@
            }),
    {
        let n = self.user_token.as_str().unicode_len();
        if n != 25 {
            return Err(ValidationError::InvalidToken(self.user_token.clone()));
        }
        let mut i: usize = 0;
        while i < 25
            invariant
                i <= 25,
                self@.len() == 25,
                forall|j: int| 0 <= j < i ==> char_alphanumeric(#[trigger] self@[j]),
            decreases 25 - i,
        {
            let c = self.user_token.as_str().get_char(i);
            if !c.is_alphanumeric() {
                return Err(ValidationError::InvalidToken(self.user_token.clone()));
            }
            i = i + 1;
        }
        Ok(self.user_token.as_str())
    }

    /// Parse an untrusted string as a token; never yields an invalid value.
    pub fn parse(s: String) -> (r: Result<UserToken, ValidationError>)
        ensures
            r matches Ok(t) ==> valid_token(s@) && t@ == s@,
            r matches Err(e) ==> ({
                &&& !valid_token(s@)
                &&& e matches ValidationError::InvalidToken(raw)
                &&& raw@ == s@
            }),
    {
        let user_token = UserToken { user_token: s };
        match user_token.is_valid() {
            Ok(_) => Ok(user_token),
            Err(e) => Err(e),
        }
    }

    /// The wrapped string.
    pub fn as_ref(&self) -> (r: &str)
        ensures
            r@ == self@,
    {
        self.user_token.as_str()
    }
}

/// How many `'@'` characters a string holds.
pub open spec fn at_sign_count(s: Seq<char>) -> nat
    decreases s.len(),
{
    if s.len() == 0 {
        0
    } else {
        at_sign_count(s.drop_last()) + if s.last() == '@' {
            1nat
        } else {
            0nat
        }
    }
}

/// An email is RFC-shaped: bounded length, exactly one `'@'`, and a
/// non-empty local part and domain around it.
pub open spec fn valid_email(s: Seq<char>) -> bool {
    &&& s.len() <= 256
    &&& at_sign_count(s) == 1
    &&& s.first() != '@'
    &&& s.last() != '@'
}

/// Validated wrapper around an email address.
#[derive(Debug)]
pub struct UserEmail {
    user_email: String,
}

impl View for UserEmail {
    type V = Seq<char>;

    closed spec fn view(&self) -> Seq<char> {
        self.user_email@
    }
}

impl UserEmail {
    /// Check the wrapped string against the email invariant.
    pub fn is_valid(&self) -> (r: Result<&str, ValidationError>)
        ensures
            r matches Ok(s) ==> valid_email(self@) && s@ == self@,
            r matches Err(e) ==> ({
                &&& !valid_email(self@)
                &&& e matches ValidationError::InvalidEmail(raw)
                &&& raw@ == self@
            }),
    {
        let n = self.user_email.as_str().unicode_len();
        if n == 0 || n > 256 {
            return Err(ValidationError::InvalidEmail(self.user_email.clone()));
        }
        let mut count: usize = 0;
        let mut i: usize = 0;
        while i < n
            invariant
                i <= n,
                n == self@.len(),
                count == at_sign_count(self@.subrange(0, i as int)),
                count <= i,
            decreases n - i,
        {
            let c = self.user_email.as_str().get_char(i);
            proof {
                assert(self@.subrange(0, i + 1).drop_last() =~= self@.subrange(0, i as int));
            }
            if c == '@' {
                count = count + 1;
            }
            i = i + 1;
        }
        proof {
            assert(self@.subrange(0, n as int) =~= self@);
        }
        if count == 1 && self.user_email.as_str().get_char(0) != '@'
            && self.user_email.as_str().get_char(n - 1) != '@' {
            Ok(self.user_email.as_str())
        } else {
            Err(ValidationError::InvalidEmail(self.user_email.clone()))
        }
    }

    /// Parse an untrusted string as an email; never yields an invalid value.
    pub fn parse(s: String) -> (r: Result<UserEmail, ValidationError>)
        ensures
            r matches Ok(m) ==> valid_email(s@) && m@ == s@,
            r matches Err(e) ==> ({
                &&& !valid_email(s@)
                &&& e matches ValidationError::InvalidEmail(raw)
                &&& raw@ == s@
            }),
    {
        let user_email = UserEmail { user_email: s };
        match user_email.is_valid() {
            Ok(_) => Ok(user_email),
            Err(e) => Err(e),
        }
    }

    /// The wrapped string.
    pub fn as_ref(&self) -> (r: &str)
        ensures
            r@ == self@,
    {
        self.user_email.as_str()
    }
}

} // verus!
