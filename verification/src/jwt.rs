//! Login tokens: issuing a signed token for a user and reading one back.
use vstd::prelude::*;
use crate::enums::{Error, Id};
use crate::helpers::{Claims, TOKEN_LIFETIME_SECONDS};
use crate::outside::{jwt_token, read_token, sign_token, token_claims};

verus! {

/// How long after its expiry a token is still accepted, in seconds.
pub const TOKEN_LEEWAY_SECONDS: i64 = 60;

/// The expiry of a token issued at `issued_at` (seconds since the Unix epoch).
pub open spec fn token_expiry(issued_at: i64) -> usize {
    (issued_at + TOKEN_LIFETIME_SECONDS) as usize
}

/// Whether a token expiring at `exp` is refused at time `now`: more than the
/// leeway has passed since it expired.
pub open spec fn token_expired(exp: usize, now: i64) -> bool {
    exp + TOKEN_LEEWAY_SECONDS < now
}

/// The claims that reading `token` at time `now` gives: those it carries under
/// `secret`, unless it has expired.
pub open spec fn decoded_claims(token: Seq<char>, secret: Seq<u8>, now: i64) -> Option<(u128, Seq<char>, usize)> {
    match token_claims(token, secret) {
        Some(t) => if token_expired(t.2, now) { None } else { Some(t) },
        None => None,
    }
}

/// Issues the login token of a user at time `now` (seconds since the Unix
/// epoch), signed with `secret`; it expires one day later. Reading the token
/// back with the same secret gives the same user, role and expiry.
pub fn encode_jwt(user_id: Id, user_role: String, now: i64, secret: &[u8]) -> (token: String)
    requires
        now + TOKEN_LIFETIME_SECONDS <= i64::MAX,
    ensures
        token@ == jwt_token(user_id, user_role@, token_expiry(now), secret@),
        token_claims(token@, secret@) == Some((user_id, user_role@, token_expiry(now))),
{
    let claims = Claims::for_user(user_id, user_role, now);
    let signed = sign_token(claims.id, claims.role.as_str(), claims.exp, secret);
    signed.unwrap()
}

/// Whether a token expiring at `exp` is refused at time `now`.
pub fn is_token_expired(exp: usize, now: i64) -> (b: bool)
    ensures
        b == token_expired(exp, now),
{
    if now < TOKEN_LEEWAY_SECONDS {
        false
    } else {
        let limit: u128 = (now - TOKEN_LEEWAY_SECONDS) as u128;
        (exp as u128) < limit
    }
}

/// Reads the claims of a login token signed with `secret` at time `now`. A
/// token that is malformed, signed with another secret or lacks a claim, or
/// that expired more than a minute before `now`, is refused with
/// `DecodeJwtFailed`; any other token gives the claims it carries.
pub fn decode_jwt(token: String, secret: &[u8], now: i64) -> (r: Result<Claims, Error>)
    ensures
        match decoded_claims(token@, secret@, now) {
            Some(t) => r matches Ok(c) && (c.id, c.role@, c.exp) == t,
            None => r == Err::<Claims, Error>(Error::DecodeJwtFailed),
        },
{
    match read_token(token.as_str(), secret) {
        Some((id, role, exp)) => {
            if is_token_expired(exp, now) {
                Err(Error::DecodeJwtFailed)
            } else {
                Ok(Claims { id, role, exp })
            }
        },
        None => Err(Error::DecodeJwtFailed),
    }
}

/// A token issued at `issued_at` reads back, with the same user, role and
/// expiry, at any time up to a day later.
pub proof fn law_fresh_token_decodes(
    token: Seq<char>,
    secret: Seq<u8>,
    user_id: Id,
    role: Seq<char>,
    issued_at: i64,
    now: i64,
)
    requires
        token_claims(token, secret) == Some((user_id, role, token_expiry(issued_at))),
        0 <= issued_at + TOKEN_LIFETIME_SECONDS <= usize::MAX,
        now <= issued_at + TOKEN_LIFETIME_SECONDS,
    ensures
        decoded_claims(token, secret, now) == Some((user_id, role, token_expiry(issued_at))),
{
}

} // verus!
