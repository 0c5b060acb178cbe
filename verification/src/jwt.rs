//! The service's tokens: their claims, their signing, and the reading of a
//! token check.

use vstd::prelude::*;
use crate::reply::{INTERNAL_SERVER_ERROR, UNAUTHORIZED};

verus! {

/// How long a token stays valid, in seconds.
pub const TOKEN_LIFETIME_SECS: i64 = 30;

/// The claims of a token: when it expires and when it was issued, both as
/// Unix timestamps.
#[derive(Debug, Clone, Copy, PartialEq, Eq)]
pub struct Claims {
    pub exp: usize,
    pub iat: usize,
}

impl Claims {
    /// The claims of a token issued at the Unix time `now`: it expires
    /// thirty seconds later. Timestamps are cast to `usize` as they are.
    pub fn issued_at(now: i64) -> (claims: Claims)
        requires
            now <= i64::MAX - TOKEN_LIFETIME_SECS,
        ensures
            claims.iat == now as usize,
            claims.exp == (now + TOKEN_LIFETIME_SECS) as usize,
            0 <= now && now + TOKEN_LIFETIME_SECS <= usize::MAX ==> claims.exp == claims.iat
                + TOKEN_LIFETIME_SECS,
    {
        let iat = now as usize;
        let exp = (now + TOKEN_LIFETIME_SECS) as usize;
        Claims { exp, iat }
    }
}

/// The HS256 token that `jsonwebtoken::encode` makes from the claims
/// `{"exp": exp, "iat": iat}` with the default header and the HMAC key
/// `secret`.
pub uninterp spec fn hs256_token(exp: usize, iat: usize, secret: Seq<u8>) -> Seq<char>;

/// Calls `jsonwebtoken::encode(&Header::default(), &claims,
/// &EncodingKey::from_secret(secret))`, with the claims as a map from
/// "exp" and "iat" to their values, which serialises as the JSON object
/// `{"exp":..,"iat":..}`. Encoding is a function of the claims and the key
/// alone (base64 of the JSON header and claims, then an HMAC-SHA256 of
/// them), so the token is the named one. The crate's error is turned into
/// `None`; when it comes is not stated.
#[verifier::external_body]
fn encode_claims(exp: usize, iat: usize, secret: &[u8]) -> (token: Option<String>)
    ensures
        token matches Some(t) ==> t@ == hs256_token(exp, iat, secret@),
{
    let mut claims = std::collections::BTreeMap::new();
    claims.insert("exp", exp);
    claims.insert("iat", iat);
    let key = jsonwebtoken::EncodingKey::from_secret(secret);
    jsonwebtoken::encode(&jsonwebtoken::Header::default(), &claims, &key).ok()
}

/// Makes a session token issued at the Unix time `now`, signed with
/// `secret`: the claims of `Claims::issued_at(now)` encoded as an HS256
/// token. A failure of the encoder is a 500.
pub fn create_jwt(now: i64, secret: &[u8]) -> (token: Result<String, u16>)
    requires
        now <= i64::MAX - TOKEN_LIFETIME_SECS,
    ensures
        token matches Ok(t) ==> t@ == hs256_token(
            (now + TOKEN_LIFETIME_SECS) as usize,
            now as usize,
            secret@,
        ),
        token matches Err(code) ==> code == INTERNAL_SERVER_ERROR,
{
    let claims = Claims::issued_at(now);
    match encode_claims(claims.exp, claims.iat, secret) {
        Some(t) => Ok(t),
        None => Err(INTERNAL_SERVER_ERROR),
    }
}

/// What decoding a token with the service's key gave.
#[derive(Debug, Clone, Copy, PartialEq, Eq)]
pub enum TokenCheck {
    /// The signature and the claims are valid.
    Valid,
    /// The signature is valid but the token has expired.
    Expired,
    /// Any other failure: a bad signature, a malformed token, wrong claims.
    Rejected,
}

/// The verdict on a token: valid, or the status that refuses it
/// (401 for an expired token, 500 for any other failure).
pub open spec fn token_verdict(check: TokenCheck) -> Result<bool, u16> {
    match check {
        TokenCheck::Valid => Ok(true),
        TokenCheck::Expired => Err(UNAUTHORIZED),
        TokenCheck::Rejected => Err(INTERNAL_SERVER_ERROR),
    }
}

/// Reads the outcome of a token check.
pub fn judge_token(check: TokenCheck) -> (verdict: Result<bool, u16>)
    ensures
        verdict == token_verdict(check),
{
    match check {
        TokenCheck::Valid => Ok(true),
        TokenCheck::Expired => Err(UNAUTHORIZED),
        TokenCheck::Rejected => Err(INTERNAL_SERVER_ERROR),
    }
}

} // verus!
