//! Password hashing and verification, through `bcrypt`.

use vstd::prelude::*;

verus! {

/// What `bcrypt::verify(password, hash)` returns: whether the password
/// matches the hash, or `None` where `bcrypt` reports an error, as it does
/// for a text that is no bcrypt hash.
pub uninterp spec fn bcrypt_verdict(password: Seq<char>, hash: Seq<char>) -> Option<bool>;

/// Hashes a password with `bcrypt::hash` at `bcrypt::DEFAULT_COST`, under a
/// random salt, so that two calls on one password need not give the same
/// hash. `None` where `bcrypt` reports an error. A hash that comes back
/// verifies against the password it was made from.
#[verifier::external_body]
fn bcrypt_hash(password: &str) -> (hashed: Option<String>)
    ensures
        hashed matches Some(h) ==> bcrypt_verdict(password@, h@) == Some(true),
{
    bcrypt::hash(password, bcrypt::DEFAULT_COST).ok()
}

/// Checks a password against a hash with `bcrypt::verify`.
#[verifier::external_body]
fn bcrypt_verify(password: &str, hash: &str) -> (verdict: Option<bool>)
    ensures
        verdict == bcrypt_verdict(password@, hash@),
{
    bcrypt::verify(password, hash).ok()
}

/// Whether `hash` is an acceptable thing to store for `password`: a text
/// that verifies against it, or, where hashing failed, `fallback`.
pub open spec fn stores_password(hash: Seq<char>, password: Seq<char>, fallback: Seq<char>) -> bool {
    bcrypt_verdict(password, hash) == Some(true) || hash == fallback
}

/// Whether a login with `password` is let in to an account that stores
/// `hash`: a login without a password always is, one with a password only
/// where the password verifies.
pub open spec fn admits(password: Option<Seq<char>>, hash: Seq<char>) -> bool {
    match password {
        Some(p) => bcrypt_verdict(p, hash) == Some(true),
        None => true,
    }
}

/// What is stored for a password once hashing has been tried: the hash, or
/// `fallback` where hashing failed.
pub fn hash_or(hashed: Option<String>, fallback: String) -> (stored: String)
    ensures
        stored@ == (match hashed {
            Some(h) => h@,
            None => fallback@,
        }),
{
    match hashed {
        Some(h) => h,
        None => fallback,
    }
}

/// The text to store for a new account's password: its hash, or the
/// password itself where hashing fails.
pub fn password_record(password: &String) -> (stored: String)
    ensures
        stores_password(stored@, password@, password@),
{
    let hashed = bcrypt_hash(password.as_str());
    hash_or(hashed, password.clone())
}

/// The text to store for an account made without a password: the hash of
/// the empty password, or the empty text where hashing fails.
pub fn empty_password_record() -> (stored: String)
    ensures
        stores_password(stored@, Seq::<char>::empty(), Seq::<char>::empty()),
{
    let empty = String::new();
    let hashed = bcrypt_hash(empty.as_str());
    hash_or(hashed, empty)
}

/// Whether a verdict lets a login in: only a plain yes does.
pub fn verdict_admits(verdict: Option<bool>) -> (admitted: bool)
    ensures
        admitted == (verdict == Some(true)),
{
    match verdict {
        Some(matches) => matches,
        None => false,
    }
}

/// Whether a login with `password` is let in to an account that stores
/// `hash`.
pub fn password_admits(password: &Option<String>, hash: &String) -> (admitted: bool)
    ensures
        admitted == admits(crate::records::text_opt(*password), hash@),
{
    match password {
        Some(p) => verdict_admits(bcrypt_verify(p.as_str(), hash.as_str())),
        None => true,
    }
}

/// An account made with a password admits a login with that password,
/// provided that hashing did not fail when the account was made.
pub proof fn lemma_registered_password_admits(password: Seq<char>, stored: Seq<char>)
    requires
        stores_password(stored, password, password),
        stored != password,
    ensures
        admits(Some(password), stored),
{
}

} // verus!
