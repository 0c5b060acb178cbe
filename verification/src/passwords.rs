//! Password hashing with bcrypt.

use vstd::prelude::*;
use crate::reply::INTERNAL_SERVER_ERROR;
use crate::text::{digits, zero_pad};

verus! {

/// The work factor with which passwords are hashed.
pub const BCRYPT_COST: u32 = 12;

/// What `bcrypt::verify(password, hash)` returns: `Some(matches)` when
/// `hash` is a bcrypt hash that the crate can read, `None` when it fails.
pub uninterp spec fn bcrypt_verify(password: Seq<char>, hash: Seq<char>) -> Option<bool>;

/// The start of a bcrypt hash made with `cost`: `$2b$`, the cost in two
/// digits, `$`.
pub open spec fn bcrypt_prefix(cost: nat) -> Seq<char> {
    seq!['$', '2', 'b', '$'] + zero_pad(digits(cost), 2) + seq!['$']
}

/// Calls `bcrypt::hash(password, cost)`. The salt is random, so nothing
/// names the hash itself. The contract claims what the crate's source shows
/// of every hash it returns: it has 60 characters (`$2b$`, two digits of
/// cost, `$`, 22 of salt and 31 of digest), and `bcrypt::verify` accepts
/// the same password against it, since it recomputes the digest from that
/// password with the salt and cost written in the hash. The call fails
/// only when the system gives no random bytes; nothing says when.
#[verifier::external_body]
fn bcrypt_hash(password: &str, cost: u32) -> (hashed: Option<String>)
    requires
        4 <= cost <= 31,
    ensures
        hashed matches Some(h) ==> bcrypt_verify(password@, h@) == Some(true),
        hashed matches Some(h) ==> h@.len() == 60,
        hashed matches Some(h) ==> h@.subrange(0, 7) == bcrypt_prefix(cost as nat),
{
    bcrypt::hash(password, cost).ok()
}

/// Calls `bcrypt::verify(password, hash)`; the result is the named one, the
/// crate's error turned into `None`.
#[verifier::external_body]
fn bcrypt_check(password: &str, hash: &str) -> (matched: Option<bool>)
    ensures
        matched == bcrypt_verify(password@, hash@),
{
    bcrypt::verify(password, hash).ok()
}

/// Hashes a password for storage, with cost 12. A failure of the hasher is
/// a 500.
pub fn hash_password(password: String) -> (hashed: Result<String, u16>)
    ensures
        hashed matches Ok(h) ==> bcrypt_verify(password@, h@) == Some(true),
        hashed matches Ok(h) ==> h@.len() == 60,
        hashed matches Ok(h) ==> h@.subrange(0, 7) == "$2b$12$"@,
        hashed matches Err(code) ==> code == INTERNAL_SERVER_ERROR,
{
    proof {
        reveal_strlit("$2b$12$");
        assert(digits(12) =~= seq!['1', '2']) by {
            assert(digits(1) =~= seq!['1']);
        }
        assert(bcrypt_prefix(12) =~= "$2b$12$"@);
    }
    match bcrypt_hash(password.as_str(), BCRYPT_COST) {
        Some(h) => Ok(h),
        None => Err(INTERNAL_SERVER_ERROR),
    }
}

/// What checking `password` against the stored `hash` gives: whether bcrypt
/// accepts it, or a 500 when bcrypt cannot read the hash.
pub open spec fn password_check(password: Seq<char>, hash: Seq<char>) -> Result<bool, u16> {
    match bcrypt_verify(password, hash) {
        Some(b) => Ok(b),
        None => Err(INTERNAL_SERVER_ERROR),
    }
}

/// Checks a password against a stored hash. A hash that bcrypt cannot read
/// is a 500.
pub fn verify_password(password: String, hash: &str) -> (matched: Result<bool, u16>)
    ensures
        matched == password_check(password@, hash@),
{
    match bcrypt_check(password.as_str(), hash) {
        Some(b) => Ok(b),
        None => Err(INTERNAL_SERVER_ERROR),
    }
}

/// A password that was hashed is accepted against its hash: whenever
/// `hash_password(p)` gives `Ok(h)`, `verify_password(p, h)` gives `Ok(true)`.
pub proof fn lemma_hashed_password_verifies(password: Seq<char>, hash: Seq<char>)
    requires
        bcrypt_verify(password, hash) == Some(true),
    ensures
        password_check(password, hash) == Ok::<bool, u16>(true),
{
}

} // verus!
