//! Declarations and wrappers for the outside crates that the verified code
//! calls. Everything here is trusted: Verus believes these contracts.
use vstd::prelude::*;

verus! {

/// A calendar date and time without a time zone (chrono). The library only
/// carries such values; it never looks inside one.
#[verifier::external_type_specification]
#[verifier::external_body]
pub struct ExNaiveDateTime(chrono::NaiveDateTime);

/// A handle to the relational database (sea-orm). Carried, never inspected.
#[verifier::external_type_specification]
#[verifier::external_body]
pub struct ExDatabaseConnection(sea_orm::DatabaseConnection);

/// What `bcrypt::verify(password, hash)` gives back: `None` where it returns an
/// error (a malformed hash), else whether the password matches the hash.
pub uninterp spec fn bcrypt_verify_result(password: Seq<char>, hash: Seq<char>) -> Option<bool>;

/// Calls `bcrypt::verify`. It recomputes the hash of `password` with the cost
/// and salt read from `hash` and compares; the result depends on the two
/// arguments alone, which the contract records through a name.
#[verifier::external_body]
pub(crate) fn bcrypt_verify(password: &str, hash: &str) -> (matched: Option<bool>)
    ensures
        matched == bcrypt_verify_result(password@, hash@),
{
    bcrypt::verify(password, hash).ok()
}

/// Calls `bcrypt::hash` with `bcrypt::DEFAULT_COST`. The salt is drawn at
/// random, so the contract names no result; it states what holds of every
/// hash that comes back: `bcrypt::verify` accepts the same password against it
/// (both truncate a password to its first 72 bytes in the same way). `None`
/// stands for an error, which the source raises only when the system random
/// source fails.
#[verifier::external_body]
pub(crate) fn bcrypt_hash(password: &str) -> (hashed: Option<String>)
    ensures
        hashed matches Some(h) ==> bcrypt_verify_result(password@, h@) == Some(true),
{
    bcrypt::hash(password, bcrypt::DEFAULT_COST).ok()
}

/// What `serde_json::from_str::<Vec<String>>` reads from a text: `None` where
/// it returns an error, else the strings of the JSON array, in order.
pub uninterp spec fn json_string_list(text: Seq<char>) -> Option<Seq<Seq<char>>>;

/// What `serde_json::to_string_pretty` writes for a list of strings.
pub uninterp spec fn pretty_json_string_list(items: Seq<Seq<char>>) -> Seq<char>;

/// The texts of a list of strings.
pub open spec fn texts(items: Seq<String>) -> Seq<Seq<char>> {
    items.map_values(|s: String| s@)
}

/// Calls `serde_json::from_str::<Vec<String>>`: parses a JSON array of strings.
/// The result depends on the text alone, which the contract records through a
/// name.
#[verifier::external_body]
pub(crate) fn parse_token_list(text: &str) -> (r: Option<Vec<String>>)
    ensures
        r is Some <==> json_string_list(text@) is Some,
        r matches Some(v) ==> texts(v@) == json_string_list(text@)->0,
{
    serde_json::from_str::<Vec<String>>(text).ok()
}

/// Calls `serde_json::to_string_pretty` on a list of strings. Its documentation
/// gives as the only failures a `Serialize` impl that fails or a map with
/// non-string keys; neither can occur for strings, so a text always comes back.
/// The text is named, and `serde_json::from_str` reads it back as the same list
/// (strings are escaped and unescaped exactly).
#[verifier::external_body]
pub(crate) fn render_token_list(tokens: &Vec<String>) -> (r: Option<String>)
    ensures
        r is Some,
        r matches Some(t) ==> t@ == pretty_json_string_list(texts(tokens@)),
        r matches Some(t) ==> json_string_list(t@) == Some(texts(tokens@)),
{
    serde_json::to_string_pretty(tokens).ok()
}

/// The login token that `jsonwebtoken::encode` writes with the default header
/// (HS256) and the HMAC key `secret`, for the claims `id` (written as a
/// hyphenated UUID), `role` and `exp`, in that order.
pub uninterp spec fn jwt_token(id: u128, role: Seq<char>, exp: usize, secret: Seq<u8>) -> Seq<char>;

/// The claims that `jsonwebtoken::decode` reads from `token` under the HMAC key
/// `secret` and the default validation with the check of `exp` against the
/// clock switched off: `None` where the token is malformed, is not HS256, its
/// signature does not verify, its payload carries an `aud` claim that reads as
/// a string or a list of strings, or it lacks an `id` holding a UUID, a `role`
/// string or an `exp` that is a whole number fitting in `usize`; else the user
/// id, the role and the expiry.
pub uninterp spec fn token_claims(token: Seq<char>, secret: Seq<u8>) -> Option<(u128, Seq<char>, usize)>;

/// Calls `jsonwebtoken::encode` with the default header on the claims given as
/// a JSON object (whose keys keep the order they were inserted in). The source
/// fails only where the key's algorithm family differs from the header's,
/// which cannot happen for an HMAC secret under HS256, so a token always comes
/// back. The token is named; decoding it with the same secret gives back the
/// same claims (the signature is recomputed from the same bytes, and the UUID,
/// string and number read back exactly).
#[verifier::external_body]
pub(crate) fn sign_token(id: u128, role: &str, exp: usize, secret: &[u8]) -> (t: Option<String>)
    ensures
        t is Some,
        t matches Some(s) ==> s@ == jwt_token(id, role@, exp, secret@),
        t matches Some(s) ==> token_claims(s@, secret@) == Some((id, role@, exp)),
{
    let mut claims = serde_json::Map::new();
    claims.insert(String::from("id"), serde_json::Value::String(uuid::Uuid::from_u128(id).to_string()));
    claims.insert(String::from("role"), serde_json::Value::String(role.to_string()));
    claims.insert(String::from("exp"), serde_json::Value::from(exp));
    let key = jsonwebtoken::EncodingKey::from_secret(secret);
    jsonwebtoken::encode(&jsonwebtoken::Header::default(), &serde_json::Value::Object(claims), &key).ok()
}

/// Calls `jsonwebtoken::decode` with the default validation (HS256, `exp`
/// required, no audience expected) but with `validate_exp` off, so the clock is
/// never read, and picks the claims out of the payload; a payload without them
/// is the error that decoding into a typed claims record raises. The result is
/// a function of the token and the secret, which the contract records through
/// a name.
#[verifier::external_body]
pub(crate) fn read_token(token: &str, secret: &[u8]) -> (c: Option<(u128, String, usize)>)
    ensures
        c is Some <==> token_claims(token@, secret@) is Some,
        c matches Some(t) ==> token_claims(token@, secret@) == Some((t.0, t.1@, t.2)),
{
    let key = jsonwebtoken::DecodingKey::from_secret(secret);
    let mut validation = jsonwebtoken::Validation::default();
    validation.validate_exp = false;
    let data = jsonwebtoken::decode::<serde_json::Value>(token, &key, &validation).ok()?;
    let id = uuid::Uuid::parse_str(data.claims.get("id")?.as_str()?).ok()?;
    let role = data.claims.get("role")?.as_str()?.to_string();
    let exp = usize::try_from(data.claims.get("exp")?.as_u64()?).ok()?;
    Some((id.as_u128(), role, exp))
}

} // verus!
