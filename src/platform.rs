//! The calls into outside crates: password hashing, random tokens and the
//! clock. Each states only what the crate guarantees.
use vstd::prelude::*;

verus! {

/// What `bcrypt::verify` returns for a password and a stored hash: whether
/// they match, or `None` where it fails (a malformed hash).
pub uninterp spec fn bcrypt_verdict(password: Seq<char>, hash: Seq<char>) -> Option<bool>;

/// Relies on `bcrypt::verify`: recomputes the hash of `password` with the
/// cost and salt read from `hash` and compares; the outcome depends on the
/// two strings alone.
#[verifier::external_body]
pub(crate) fn bcrypt_verify(password: &str, hash: &str) -> (r: Option<bool>)
    ensures
        r == bcrypt_verdict(password@, hash@),
{
    bcrypt::verify(password, hash).ok()
}

/// Relies on `bcrypt::hash` at `bcrypt::DEFAULT_COST`: the salt is drawn at
/// random, and the hash it returns is one that `bcrypt::verify` accepts for
/// the same password. It fails only where the system's randomness does.
#[verifier::external_body]
pub(crate) fn bcrypt_hash(password: &str) -> (r: Option<String>)
    ensures
        r matches Some(h) ==> bcrypt_verdict(password@, h@) == Some(true),
{
    bcrypt::hash(password, bcrypt::DEFAULT_COST).ok()
}

/// Relies on `uuid::Uuid::new_v4`, written in its hyphenated form: a fresh
/// random token, of which nothing is promised.
#[verifier::external_body]
pub(crate) fn new_session_token() -> (r: String) {
    uuid::Uuid::new_v4().to_string()
}

/// Relies on `chrono::Utc::now`: the current instant, in microseconds since
/// the Unix epoch.
#[verifier::external_body]
pub(crate) fn now_micros() -> (r: i64) {
    chrono::Utc::now().timestamp_micros()
}

/// Relies on `chrono::Utc::now` and `chrono::Datelike::num_days_from_ce`:
/// today's date in UTC, in days from 1 January of year 1.
#[verifier::external_body]
pub(crate) fn today() -> (r: i32) {
    chrono::Datelike::num_days_from_ce(&chrono::Utc::now().date_naive())
}

} // verus!
