//! Credential checks: password verification against a stored bcrypt hash,
//! and API key admission.

use bcrypt::BcryptError;
use vstd::prelude::*;

verus! {

#[verifier::external_type_specification]
#[verifier::external_body]
pub struct ExBcryptError(BcryptError);

/// What `bcrypt::verify(password, hash)` returns, as an option: `Some(b)`
/// for `Ok(b)`, `None` for an error.
pub uninterp spec fn bcrypt_verify_outcome(password: Seq<char>, hash: Seq<char>) -> Option<bool>;

/// Calls `bcrypt::verify(password, hash)`, which parses `hash` as a bcrypt
/// hash string ("$2b$<cost>$<salt+digest>"), recomputes the digest of
/// `password` under its salt and cost, and compares. Its result is taken to
/// depend on the two strings alone (`bcrypt_verify_outcome`). Of its value
/// only this is stated: a hash that does not split into three non-empty
/// '$'-separated parts is refused with an error, so an empty hash gives `Err`.
#[verifier::external_body]
fn bcrypt_verify(password: &str, hash: &str) -> (r: Result<bool, BcryptError>)
    ensures
        match r {
            Ok(b) => bcrypt_verify_outcome(password@, hash@) == Some(b),
            Err(_) => bcrypt_verify_outcome(password@, hash@) is None,
        },
        hash@.len() == 0 ==> r is Err,
{
    bcrypt::verify(password, hash)
}

/// A failure of the database that holds users or I/O records.
#[derive(Debug, Clone, Copy, PartialEq, Eq, Structural)]
pub struct DbError;

/// A user record: the stored bcrypt hash of the user's password.
#[derive(Debug)]
pub struct User {
    pub password: String,
}

/// A bcrypt check passes only when it ran and reported a match: an error
/// (malformed hash, bad cost) counts as a mismatch.
pub fn hash_check_passes(outcome: Result<bool, BcryptError>) -> (r: bool)
    ensures
        r == (outcome matches Ok(true)),
{
    match outcome {
        Ok(b) => b,
        Err(_) => false,
    }
}

/// Whether `password` is the password of the user that `lookup` found.
/// A failed lookup is passed on; an unknown user is never verified.
pub fn verify_password(lookup: Result<Option<User>, DbError>, password: &str) -> (r: Result<
    bool,
    DbError,
>)
    ensures
        match lookup {
            Err(e) => r == Err::<bool, DbError>(e),
            Ok(None) => r == Ok::<bool, DbError>(false),
            Ok(Some(user)) => r == Ok::<bool, DbError>(
                bcrypt_verify_outcome(password@, user.password@) == Some(true),
            ),
        },
        lookup matches Ok(Some(u)) && u.password@.len() == 0 ==> r == Ok::<bool, DbError>(false),
{
    match lookup {
        Err(e) => Err(e),
        Ok(None) => Ok(false),
        Ok(Some(user)) => {
            let outcome = bcrypt_verify(password, user.password.as_str());
            Ok(hash_check_passes(outcome))
        },
    }
}

/// An API key presented in the "x-api-key" header and found in the user table.
#[derive(Debug)]
pub struct ApiKey(pub String);

/// A key is valid when at least one user holds it.
pub fn validate_api_key(key_holders: i64) -> (r: bool)
    ensures
        r == (key_holders > 0),
{
    key_holders > 0
}

/// Admits a request by its "x-api-key" header: it needs a header whose key
/// at least one user holds. `key_holders` is the number of users holding the
/// header's key; it is not consulted when there is no header.
pub fn from_request(header: Option<String>, key_holders: i64) -> (r: Option<ApiKey>)
    ensures
        match header {
            Some(k) => if key_holders > 0 {
                r matches Some(a) && a.0@ == k@
            } else {
                r is None
            },
            None => r is None,
        },
{
    match header {
        Some(k) => {
            if validate_api_key(key_holders) {
                Some(ApiKey(k))
            } else {
                None
            }
        },
        None => None,
    }
}

} // verus!
