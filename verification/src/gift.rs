//! Gifts in wrapping: a gift is any JSON value; wrapping signs it into a
//! token that travels in a cookie, and unwrapping checks the token and hands
//! the gift back.

use vstd::prelude::*;

verus! {

#[verifier::external_type_specification]
#[verifier::external_body]
pub struct ExValue(serde_json::Value);

#[verifier::external_type_specification]
#[verifier::external_body]
pub struct ExTokenError(jsonwebtoken::errors::Error);

#[verifier::external_type_specification]
#[verifier::external_body]
pub struct ExValidation(jsonwebtoken::Validation);

/// Why there is no gift, or no wrapping.
#[derive(Clone, Copy, Debug, PartialEq, Eq, Structural)]
pub enum GiftError {
    /// No cookie came with the request.
    Missing,
    /// The cookie holds no token that stands up to the check.
    Rejected,
    /// The gift could not be signed.
    Unsigned,
}

/// The name of the cookie in which a wrapped gift travels.
pub fn cookie_name() -> (name: &'static str)
    ensures
        name@ == "gift"@,
{
    "gift"
}

/// The secret with which gifts are signed.
pub fn secret() -> (key: &'static str)
    ensures
        key@ == "the_secret_key"@,
{
    "the_secret_key"
}

/// The token that signing `claims` with `secret` gives, or `None` where the
/// signing fails: what `jsonwebtoken::encode` returns for the default header
/// and a key made from the secret.
pub uninterp spec fn token_for(claims: serde_json::Value, secret: Seq<u8>) -> Option<Seq<char>>;

/// Calls `jsonwebtoken::encode` with the default header and a key made from
/// `secret`. Trusted: the outcome depends on the claims and the secret alone,
/// and is the one that `token_for` names. Nothing is claimed of what the token
/// holds, nor that the signing succeeds.
#[verifier::external_body]
fn sign(claims: &serde_json::Value, secret: &[u8]) -> (signed: Result<
    String,
    jsonwebtoken::errors::Error,
>)
    ensures
        match signed {
            Ok(token) => token_for(*claims, secret@) == Some(token@),
            Err(_) => token_for(*claims, secret@) is None,
        },
{
    jsonwebtoken::encode(
        &jsonwebtoken::Header::default(),
        claims,
        &jsonwebtoken::EncodingKey::from_secret(secret),
    )
}

/// Calls `jsonwebtoken::Validation::default`. Trusted, and nothing is claimed
/// of the rules it gives.
#[verifier::external_body]
fn usual_checks() -> (checks: jsonwebtoken::Validation) {
    jsonwebtoken::Validation::default()
}

/// Takes `claim` out of the claims that `checks` asks a token to carry.
/// Trusted, and nothing is claimed of the rules that are left.
#[verifier::external_body]
fn waive(checks: &mut jsonwebtoken::Validation, claim: &str) {
    checks.required_spec_claims.remove(claim);
}

/// Calls `jsonwebtoken::decode` with a key made from `secret` and hands back
/// the claims. Trusted, and nothing is claimed of the outcome, which depends
/// on the time at which a token that carries an expiry is read.
#[verifier::external_body]
fn check(token: &str, secret: &[u8], checks: &jsonwebtoken::Validation) -> (claims: Result<
    serde_json::Value,
    jsonwebtoken::errors::Error,
>) {
    let key = jsonwebtoken::DecodingKey::from_secret(secret);
    match jsonwebtoken::decode::<serde_json::Value>(token, &key, checks) {
        Ok(data) => Ok(data.claims),
        Err(error) => Err(error),
    }
}

/// What wrapping answers once the signing has come back: the token, or that
/// the gift could not be signed.
pub fn wrapped(signed: Result<String, jsonwebtoken::errors::Error>) -> (token: Result<
    String,
    GiftError,
>)
    ensures
        token == match signed {
            Ok(text) => Ok::<String, GiftError>(text),
            Err(_) => Err::<String, GiftError>(GiftError::Unsigned),
        },
{
    match signed {
        Ok(text) => Ok(text),
        Err(_) => Err(GiftError::Unsigned),
    }
}

/// What unwrapping answers once the check has come back: the gift, or that
/// the token was rejected.
pub fn unwrapped(checked: Result<serde_json::Value, jsonwebtoken::errors::Error>) -> (gift: Result<
    serde_json::Value,
    GiftError,
>)
    ensures
        gift == match checked {
            Ok(claims) => Ok::<serde_json::Value, GiftError>(claims),
            Err(_) => Err::<serde_json::Value, GiftError>(GiftError::Rejected),
        },
{
    match checked {
        Ok(claims) => Ok(claims),
        Err(_) => Err(GiftError::Rejected),
    }
}

/// The secret with which gifts are signed, as bytes.
pub open spec fn secret_bytes() -> Seq<u8> {
    vstd::utf8::encode_utf8("the_secret_key"@)
}

/// Wraps `gift`: signs it with the secret and returns the token to put in
/// the cookie, which is the one that `token_for` names for this gift and the
/// secret. Where the signing fails the gift is `Unsigned`.
pub fn wrap_gift(gift: &serde_json::Value) -> (token: Result<String, GiftError>)
    ensures
        match token {
            Ok(text) => token_for(*gift, secret_bytes()) == Some(text@),
            Err(error) => error == GiftError::Unsigned && token_for(*gift, secret_bytes()) is None,
        },
{
    wrapped(sign(gift, secret().as_bytes()))
}

/// Unwraps the gift in the cookie that came with a request, if one came. The
/// token is checked as usual, except that it need not say when it expires.
/// Without a cookie the gift is `Missing`; with one, the only way to fail is
/// that the token is `Rejected`.
pub fn unwrap_gift(cookie: Option<&str>) -> (gift: Result<serde_json::Value, GiftError>)
    ensures
        cookie is None ==> gift == Err::<serde_json::Value, GiftError>(GiftError::Missing),
        cookie is Some ==> (gift matches Err(error) ==> error == GiftError::Rejected),
{
    match cookie {
        None => Err(GiftError::Missing),
        Some(token) => {
            let mut checks = usual_checks();
            waive(&mut checks, "exp");
            unwrapped(check(token, secret().as_bytes(), &checks))
        },
    }
}

} // verus!
