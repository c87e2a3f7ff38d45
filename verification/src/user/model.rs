//! Account records and the request bodies of the account endpoints.

use vstd::prelude::*;
use crate::oid::Oid;

verus! {

/// A stored account.
#[derive(Clone, Debug, PartialEq, Eq)]
pub struct User {
    pub id: Option<Oid>,
    pub email: String,
    pub password: String,
    pub salt: String,
    pub role: String,
    pub created_at: i64,
    pub updated_at: i64,
}

/// A stored backup record.
#[derive(Clone, Debug, PartialEq, Eq)]
pub struct Backup {
    pub id: Option<Oid>,
    pub backup_path: String,
    pub user: Option<Oid>,
    pub created_at: i64,
}

/// Credentials of the register and login endpoints.
pub struct BasicUser {
    pub email: String,
    pub password: String,
}

/// Body of the profile endpoint: the new email, the new password and the
/// current password.
pub struct UpdateUser {
    pub email: String,
    pub password: String,
    pub password_old: String,
}

/// The shortest password that is accepted, in chars.
pub const MIN_PASSWORD_CHARS: usize = 8;

/// Whether `validator`'s email check accepts a text.
pub uninterp spec fn email_is_valid(email: Seq<char>) -> bool;

/// Checks an email address with `validator::ValidateEmail::validate_email`.
///
/// Trusted: the result is the check's verdict, and the check refuses an
/// empty text and a text without '@' before anything else.
#[verifier::external_body]
pub fn validate_email(email: &str) -> (r: bool)
    ensures
        r == email_is_valid(email@),
        r ==> email@.len() > 0 && email@.contains('@'),
{
    validator::ValidateEmail::validate_email(&email)
}

/// Whether a text has at least `min` chars (as `validator`'s length check
/// counts them).
pub fn has_at_least_chars(s: &str, min: usize) -> (r: bool)
    ensures
        r == (s@.len() >= min),
{
    if min == 0 {
        return true;
    }
    let ghost text = s@;
    let mut count: usize = 0;
    for c in it: s.chars()
        invariant
            it.seq() == text,
            text == s@,
            count as int == it.index(),
            count < min,
    {
        count = count + 1;
        if count >= min {
            return true;
        }
    }
    false
}

/// Why credentials were refused.
#[derive(PartialEq, Eq, Structural, Clone, Copy, Debug)]
pub enum CredentialsError {
    InvalidEmail,
    PasswordTooShort,
}

impl BasicUser {
    /// Validates credentials: a valid email address and a password of at
    /// least 8 chars. The email is checked first.
    pub fn validate(&self) -> (r: Result<(), CredentialsError>)
        ensures
            r is Ok <==> email_is_valid(self.email@) && self.password@.len() >= MIN_PASSWORD_CHARS,
            r == Err::<(), CredentialsError>(CredentialsError::InvalidEmail) <==> !email_is_valid(self.email@),
    {
        if !validate_email(self.email.as_str()) {
            Err(CredentialsError::InvalidEmail)
        } else if !has_at_least_chars(self.password.as_str(), MIN_PASSWORD_CHARS) {
            Err(CredentialsError::PasswordTooShort)
        } else {
            Ok(())
        }
    }
}

} // verus!
