//! The decisions of the account operations, and password hashing.

use vstd::prelude::*;
use crate::config::collections::Collection;
use crate::oid::Oid;
use crate::user::model::{BasicUser, MIN_PASSWORD_CHARS, UpdateUser, User, has_at_least_chars};
use core::time::Duration;
use std::time::SystemTime;

verus! {

#[verifier::external_type_specification]
#[verifier::external_body]
pub struct ExSystemTime(SystemTime);

/// The current time of the system clock (`SystemTime::now`).
#[verifier::external_body]
fn system_now() -> SystemTime {
    SystemTime::now()
}

/// The time elapsed from the Unix epoch to `t`, or `None` when `t` is
/// earlier (`SystemTime::duration_since(UNIX_EPOCH)`). Depends on the clock:
/// nothing is stated.
#[verifier::external_body]
fn since_unix_epoch(t: &SystemTime) -> Option<Duration> {
    t.duration_since(std::time::UNIX_EPOCH).ok()
}

/// The whole milliseconds of a duration (`Duration::as_millis`). The value
/// comes from the clock: nothing is stated.
#[verifier::external_body]
fn duration_millis(d: &Duration) -> u128 {
    d.as_millis()
}

/// The timestamp for a number of milliseconds since the epoch: the number
/// itself when it fits an `i64`, 0 when it does not or when it is unknown.
pub open spec fn timestamp_of(millis: Option<u128>) -> i64 {
    match millis {
        Some(ms) => if ms <= i64::MAX { ms as i64 } else { 0 },
        None => 0,
    }
}

/// The timestamp for a number of milliseconds since the epoch (`None` when
/// the clock is before the epoch).
pub fn timestamp_from_millis(millis: Option<u128>) -> (t: i64)
    ensures
        t == timestamp_of(millis),
        t >= 0,
{
    match millis {
        Some(ms) => {
            if ms <= i64::MAX as u128 {
                ms as i64
            } else {
                0
            }
        },
        None => 0,
    }
}

/// Milliseconds since the Unix epoch, from the system clock; 0 when the clock
/// is before the epoch or too far after it.
pub fn get_timestamp() -> (t: i64)
    ensures
        t >= 0,
{
    let now = system_now();
    let millis = match since_unix_epoch(&now) {
        Some(d) => Some(duration_millis(&d)),
        None => None,
    };
    timestamp_from_millis(millis)
}

/// The PHC string that Argon2 (default parameters) gives for a password and
/// a B64 salt, or `None` when hashing fails.
pub uninterp spec fn argon2_phc(password: Seq<char>, salt: Seq<char>) -> Option<Seq<char>>;

/// Whether Argon2 (default parameters) accepts a password against a PHC
/// string: `None` when the string does not parse as a password hash.
pub uninterp spec fn argon2_verify(password: Seq<char>, phc: Seq<char>) -> Option<bool>;

/// The longest password, in chars, whose UTF-8 form surely fits Argon2's
/// limit of `0xFFFF_FFFF` bytes (a char takes at most 4 bytes).
pub const MAX_HASHED_PASSWORD_CHARS: usize = 0x3FFF_FFFF;

/// A fresh random salt (`SaltString::generate` with the operating system's
/// random source), in its B64 form.
///
/// Trusted: the salt is the B64 text of 16 random bytes, which
/// `SaltString::from_b64` accepts and which decodes to 16 bytes, within
/// Argon2's salt limits; Argon2 (default parameters) then hashes any password
/// of at most `0xFFFF_FFFF` bytes with it. Which salt comes out is random
/// and left unsaid.
#[verifier::external_body]
fn generate_salt() -> (r: String)
    ensures
        forall|password: Seq<char>| password.len() <= MAX_HASHED_PASSWORD_CHARS
            ==> (#[trigger] argon2_phc(password, r@)) is Some,
{
    password_hash::SaltString::generate(&mut password_hash::rand_core::OsRng).as_str().to_string()
}

/// Hashes a password with Argon2 (default parameters) and a B64 salt
/// (`PasswordHasher::hash_password`), giving its PHC string.
///
/// Trusted: the result is a function of the password and the salt. A hash
/// that it makes verifies with the same password: `verify_password`
/// recomputes the hash with the salt and parameters that the PHC string
/// records and compares the outputs. The error text is left unsaid.
#[verifier::external_body]
fn hash_password(password: &str, salt: &str) -> (r: Result<String, String>)
    ensures
        r is Ok <==> argon2_phc(password@, salt@) is Some,
        r matches Ok(h) ==> argon2_phc(password@, salt@) == Some(h@)
            && argon2_verify(password@, h@) == Some(true),
{
    let salt = password_hash::SaltString::from_b64(salt).map_err(|e| e.to_string())?;
    match password_hash::PasswordHasher::hash_password(&argon2::Argon2::default(), password.as_bytes(), &salt) {
        Ok(h) => Ok(h.to_string()),
        Err(e) => Err(e.to_string()),
    }
}

/// Verifies a password against a PHC string with Argon2 (default
/// parameters): `Err` when the string does not parse as a password hash
/// (`PasswordHash::new`), otherwise whether `verify_password` accepts.
///
/// Trusted: the result is a function of the password and the PHC string.
/// The error text is left unsaid.
#[verifier::external_body]
fn verify_password(password: &str, phc: &str) -> (r: Result<bool, String>)
    ensures
        r is Err <==> argon2_verify(password@, phc@) is None,
        r matches Ok(b) ==> argon2_verify(password@, phc@) == Some(b),
{
    match password_hash::PasswordHash::new(phc) {
        Ok(hash) => Ok(password_hash::PasswordVerifier::verify_password(
            &argon2::Argon2::default(), password.as_bytes(), &hash).is_ok()),
        Err(e) => Err(e.to_string()),
    }
}

/// Whether an account accepts a password.
pub open spec fn login_accepts(account: User, password: Seq<char>) -> bool {
    argon2_verify(password, account.password@) == Some(true)
}

/// The new account of a registration: the email, the Argon2 hash of the
/// password with a fresh salt, the salt, the role "BASIC", and `timestamp`
/// as creation and update time. `None` when the password is shorter than 8
/// chars; a password of 8 to `MAX_HASHED_PASSWORD_CHARS` chars always gets
/// an account.
///
/// The account accepts the password it was registered with.
pub fn new_account(user: &BasicUser, timestamp: i64) -> (r: Option<User>)
    ensures
        user.password@.len() < MIN_PASSWORD_CHARS ==> r is None,
        MIN_PASSWORD_CHARS <= user.password@.len() <= MAX_HASHED_PASSWORD_CHARS ==> r is Some,
        r matches Some(account) ==> {
            &&& user.password@.len() >= MIN_PASSWORD_CHARS
            &&& account.id is None
            &&& account.email@ == user.email@
            &&& argon2_phc(user.password@, account.salt@) == Some(account.password@)
            &&& account.role@ == "BASIC"@
            &&& account.created_at == timestamp
            &&& account.updated_at == timestamp
            &&& login_accepts(account, user.password@)
        },
{
    if !has_at_least_chars(user.password.as_str(), MIN_PASSWORD_CHARS) {
        return None;
    }
    let salt = generate_salt();
    match hash_password(user.password.as_str(), salt.as_str()) {
        Ok(password) => Some(User {
            id: None,
            email: user.email.clone(),
            password,
            salt,
            role: String::from_str("BASIC"),
            created_at: timestamp,
            updated_at: timestamp,
        }),
        Err(_) => None,
    }
}

/// Whether an account accepts a password, as the login checks it: a stored
/// hash that does not parse accepts nothing.
pub fn login_check(account: &User, password: &str) -> (ok: bool)
    ensures
        ok == login_accepts(*account, password@),
{
    match verify_password(password, account.password.as_str()) {
        Ok(b) => b,
        Err(_) => false,
    }
}

/// Whether the email of a profile update belongs to another account: the
/// account found under that email (if any) is not the user's.
pub fn email_taken_by_other(found: Option<&User>, user_id: Oid) -> (taken: bool)
    ensures
        taken == match found {
            Some(u) => u.id != Some(user_id),
            None => false,
        },
{
    match found {
        Some(u) => match u.id {
            Some(id) => id != user_id,
            None => true,
        },
        None => false,
    }
}

/// The account after a profile update, or `None` when the update is refused.
///
/// The stored hash must parse. When the current password is accepted, the
/// password is replaced by the Argon2 hash of the new one with a fresh salt
/// (refused if hashing fails). When it is not accepted, the update is
/// refused if the given current password has at least 8 chars; a shorter one
/// leaves the password as it is. In every accepted update the email becomes
/// the new one and the update time becomes `timestamp`. A new password of at
/// most `MAX_HASHED_PASSWORD_CHARS` chars always hashes, so a verified
/// current password always gets its update.
pub fn apply_account_update(account: User, data: &UpdateUser, timestamp: i64) -> (r: Option<User>)
    ensures
        argon2_verify(data.password_old@, account.password@) is None ==> r is None,
        argon2_verify(data.password_old@, account.password@) == Some(false)
            && data.password_old@.len() >= MIN_PASSWORD_CHARS ==> r is None,
        r matches Some(updated) ==> {
            &&& updated.id == account.id
            &&& updated.email@ == data.email@
            &&& updated.role == account.role
            &&& updated.created_at == account.created_at
            &&& updated.updated_at == timestamp
            &&& if argon2_verify(data.password_old@, account.password@) == Some(true) {
                &&& argon2_phc(data.password@, updated.salt@) == Some(updated.password@)
                &&& login_accepts(updated, data.password@)
            } else {
                &&& updated.password == account.password
                &&& updated.salt == account.salt
            }
        },
        argon2_verify(data.password_old@, account.password@) == Some(false)
            && data.password_old@.len() < MIN_PASSWORD_CHARS ==> r is Some,
        argon2_verify(data.password_old@, account.password@) == Some(true)
            && data.password@.len() <= MAX_HASHED_PASSWORD_CHARS ==> r is Some,
{
    let allow_pw = match verify_password(data.password_old.as_str(), account.password.as_str()) {
        Ok(b) => b,
        Err(_) => {
            return None;
        },
    };
    if !allow_pw && has_at_least_chars(data.password_old.as_str(), MIN_PASSWORD_CHARS) {
        return None;
    }
    let mut account = account;
    if allow_pw {
        let salt = generate_salt();
        match hash_password(data.password.as_str(), salt.as_str()) {
            Ok(password) => {
                account.salt = salt;
                account.password = password;
            },
            Err(_) => {
                return None;
            },
        }
    }
    account.email = data.email.clone();
    account.updated_at = timestamp;
    Some(account)
}

/// The collections whose documents of a user are deleted with the account,
/// in order; the account itself is deleted after them.
pub open spec fn account_data_collections() -> Seq<Collection> {
    seq![
        Collection::Categories, Collection::Manga, Collection::Chapters, Collection::Tracks,
        Collection::Histories, Collection::Updates, Collection::Settings,
    ]
}

/// Deleting an account clears every collection of synced data and nothing
/// else: the collections cleared are exactly all collections but the users
/// collection (categories, manga, chapters, tracks, histories, updates and
/// settings), each once.
pub proof fn lemma_account_data_is_all_synced_data()
    ensures
        forall|c: Collection| #[trigger] account_data_collections().contains(c) <==> c != Collection::Users,
        account_data_collections().no_duplicates(),
{
    let s = account_data_collections();
    assert forall|c: Collection| #[trigger] s.contains(c) <==> c != Collection::Users by {
        if c != Collection::Users {
            match c {
                Collection::Categories => assert(s[0] == c),
                Collection::Manga => assert(s[1] == c),
                Collection::Chapters => assert(s[2] == c),
                Collection::Tracks => assert(s[3] == c),
                Collection::Histories => assert(s[4] == c),
                Collection::Updates => assert(s[5] == c),
                Collection::Settings => assert(s[6] == c),
                Collection::Users => {},
            }
        }
    }
}

/// The collections whose documents of a user are deleted with the account,
/// in the order of deletion.
pub fn account_data_collections_list() -> (r: Vec<Collection>)
    ensures
        r@ == account_data_collections(),
        forall|c: Collection| #[trigger] r@.contains(c) <==> c != Collection::Users,
        r@.no_duplicates(),
{
    let r = vec![
        Collection::Categories, Collection::Manga, Collection::Chapters, Collection::Tracks,
        Collection::Histories, Collection::Updates, Collection::Settings,
    ];
    assert(r@ =~= account_data_collections());
    proof {
        lemma_account_data_is_all_synced_data();
    }
    r
}

/// The entry that records a failed deletion: "<label>: <error>".
pub fn deletion_error_entry(label: &str, error: &str) -> (r: String)
    ensures
        r@ == label@ + ": "@ + error@,
{
    let mut r = String::from_str(label);
    r.append(": ");
    r.append(error);
    r
}

/// How `{:?}` renders a list of strings.
pub uninterp spec fn debug_string_list(items: Seq<Seq<char>>) -> Seq<char>;

/// Renders a list of strings with `{:?}` (std's `Debug`).
///
/// Trusted: the result is a function of the strings.
#[verifier::external_body]
fn debug_list(items: &Vec<String>) -> (r: String)
    ensures
        r@ == debug_string_list(items@.map_values(|s: String| s@)),
{
    format!("{:?}", items)
}

/// The outcome of deleting an account's data and record, given the entries
/// of the deletions that failed: success when none did, otherwise the error
/// "Failed to delete some data: <entries as {:?} prints them>".
pub fn deletion_outcome(errors: Vec<String>) -> (r: Result<bool, String>)
    ensures
        errors@.len() == 0 ==> r == Ok::<bool, String>(true),
        errors@.len() > 0 ==> (r matches Err(m)
            && m@ == "Failed to delete some data: "@ + debug_string_list(errors@.map_values(|s: String| s@))),
{
    if errors.len() == 0 {
        Ok(true)
    } else {
        let mut m = String::from_str("Failed to delete some data: ");
        let listed = debug_list(&errors);
        m.append(listed.as_str());
        Err(m)
    }
}

} // verus!
