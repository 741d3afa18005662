//! The token service: issues bearer tokens and verifies them.
//!
//! A token binds a user name to an absolute expiry. It is signed with HMAC
//! SHA-256 under one fixed secret, so verification needs no store: the
//! signature is recomputed and the expiry is compared with the clock. Signing
//! and signature checking are the work of the `jsonwebtoken` crate; reading
//! the `Authorization` header and judging the expiry are done here.

use vstd::prelude::*;
use vstd::string::*;
use crate::clock::{utc_now, Timestamp};
use crate::text::is_word;

verus! {

/// How long an issued token stays valid: ten days, in seconds.
pub const TOKEN_LIFETIME_SECS: u64 = 864_000;

/// What a token states: the user it was issued to and the second (since the
/// Unix epoch) after which it is no longer accepted.
#[derive(Debug)]
pub struct Claims {
    pub sub: String,
    pub exp: u64,
}

/// The claims as mathematical values.
pub ghost struct ClaimsView {
    pub sub: Seq<char>,
    pub exp: u64,
}

impl View for Claims {
    type V = ClaimsView;

    open spec fn view(&self) -> ClaimsView {
        ClaimsView { sub: self.sub@, exp: self.exp }
    }
}

/// What is read out of a token whose signature holds: each of the two claims,
/// where the payload carries it with the right type.
pub struct RawClaims {
    pub sub: Option<String>,
    pub exp: Option<u64>,
}

/// The claims read out of a token as mathematical values.
pub ghost struct RawClaimsView {
    pub sub: Option<Seq<char>>,
    pub exp: Option<u64>,
}

impl View for RawClaims {
    type V = RawClaimsView;

    open spec fn view(&self) -> RawClaimsView {
        RawClaimsView {
            sub: match self.sub {
                Some(s) => Some(s@),
                None => None,
            },
            exp: self.exp,
        }
    }
}

/// Why a request carries no usable identity.
#[derive(Clone, Copy, Debug, PartialEq, Eq, Structural)]
pub enum AuthError {
    /// No `Authorization` header, or one that is not `Bearer <token>`.
    Missing,
    /// The token is malformed, its signature does not match, or it lacks a claim.
    Invalid,
    /// The token's expiry has passed.
    Expired,
}

/// Why no token could be issued.
#[derive(Clone, Copy, Debug, PartialEq, Eq, Structural)]
pub enum TokenError {
    /// The clock reads a time before the Unix epoch.
    ClockBeforeEpoch,
    /// The signer refused the claims. With the library's key and payload it
    /// never does.
    Signing,
}

/// The error of `jsonwebtoken`, carried through unopened: the library
/// answers every such error alike.
#[verifier::external_type_specification]
#[verifier::external_body]
pub struct ExJwtError(jsonwebtoken::errors::Error);

/// The token that `jsonwebtoken::encode` produces for the claims `sub` and
/// `exp` under the default header and the HMAC secret `secret`; `None` where
/// it reports an error.
pub uninterp spec fn signed_token(sub: Seq<char>, exp: u64, secret: Seq<u8>) -> Option<Seq<char>>;

/// What `jsonwebtoken::decode` reads out of `token` when it checks the
/// signature against the HMAC secret `secret` and leaves the expiry alone;
/// `None` where it reports an error.
pub uninterp spec fn token_claims(token: Seq<char>, secret: Seq<u8>) -> Option<
    (Option<Seq<char>>, Option<u64>),
>;

/// The secret that tokens are signed with.
pub fn secret() -> (key: &'static str)
    ensures
        key@ == secret_text(),
{
    "secret"
}

/// The signing secret as text.
pub closed spec fn secret_text() -> Seq<char> {
    "secret"@
}

/// The signing secret as the bytes handed to the signer.
pub open spec fn secret_bytes() -> Seq<u8> {
    vstd::utf8::encode_utf8(secret_text())
}

/// Calls `jsonwebtoken::encode` with the default header (HMAC SHA-256) on a
/// payload that holds `sub` and `exp`, in this order. The contract names the
/// outcome and adds the three facts the library relies on. The call
/// succeeds: the key is an HMAC secret as the default header asks, a payload
/// of one text and one number always serialises, and HMAC signing has no
/// failure. The token is a single word (three runs of URL-safe base64 joined
/// by dots). And a token signed under a secret reads back, under the same
/// secret, as the claims it was made from.
#[verifier::external_body]
fn sign_claims(sub: &str, exp: u64, key: &[u8]) -> (result: Result<
    String,
    jsonwebtoken::errors::Error,
>)
    ensures
        result is Ok,
        result matches Ok(token) ==> signed_token(sub@, exp, key@) == Some(token@) && is_word(
            token@,
        ) && token_claims(token@, key@) == Some((Some(sub@), Some(exp))),
{
    let mut payload = serde_json::Map::new();
    payload.insert("sub".to_owned(), serde_json::Value::from(sub));
    payload.insert("exp".to_owned(), serde_json::Value::from(exp));
    jsonwebtoken::encode(
        &jsonwebtoken::Header::default(),
        &payload,
        &jsonwebtoken::EncodingKey::from_secret(key),
    )
}

/// Calls `jsonwebtoken::decode` for HMAC SHA-256 with the expiry check
/// switched off, so that the outcome depends on the token and the secret
/// alone, and picks the two claims out of the payload. The token must still
/// carry an `exp` claim and a matching signature to be read at all.
#[verifier::external_body]
fn read_claims(token: &str, key: &[u8]) -> (result: Result<RawClaims, jsonwebtoken::errors::Error>)
    ensures
        result is Ok <==> token_claims(token@, key@) is Some,
        result matches Ok(raw) ==> token_claims(token@, key@) == Some((raw@.sub, raw@.exp)),
{
    let mut validation = jsonwebtoken::Validation::new(jsonwebtoken::Algorithm::HS256);
    validation.validate_exp = false;
    let key = jsonwebtoken::DecodingKey::from_secret(key);
    let data = jsonwebtoken::decode::<serde_json::Map<String, serde_json::Value>>(
        token,
        &key,
        &validation,
    )?;
    Ok(
        RawClaims {
            sub: data.claims.get("sub").and_then(|v| v.as_str()).map(|s| s.to_owned()),
            exp: data.claims.get("exp").and_then(|v| v.as_u64()),
        },
    )
}

/// The expiry of a token issued at `now`, a clock reading at or after the
/// epoch: ten days later, in whole seconds.
pub open spec fn expiry_at(now: Timestamp) -> u64 {
    (now.secs + TOKEN_LIFETIME_SECS) as u64
}

/// What issuing a token for `name` at `now` gives.
pub open spec fn issued(name: Seq<char>, now: Timestamp) -> Result<Seq<char>, TokenError> {
    if now.secs < 0 {
        Err(TokenError::ClockBeforeEpoch)
    } else {
        match signed_token(name, expiry_at(now), secret_bytes()) {
            Some(token) => Ok(token),
            None => Err(TokenError::Signing),
        }
    }
}

/// Issues a token for `name` as of the instant `now`: it expires ten days
/// after `now`.
pub fn create_token_at(name: &str, now: Timestamp) -> (result: Result<String, TokenError>)
    ensures
        match result {
            Ok(token) => issued(name@, now) == Ok::<Seq<char>, TokenError>(token@),
            Err(e) => issued(name@, now) == Err::<Seq<char>, TokenError>(e),
        },
        result matches Ok(token) ==> is_word(token@) && decoded(token@) == Some(
            ClaimsView { sub: name@, exp: expiry_at(now) },
        ),
        result is Ok <==> now.secs >= 0,
        now.secs < 0 ==> result == Err::<String, TokenError>(TokenError::ClockBeforeEpoch),
{
    if now.secs < 0 {
        return Err(TokenError::ClockBeforeEpoch);
    }
    let exp: u64 = now.secs as u64 + TOKEN_LIFETIME_SECS;
    match sign_claims(name, exp, secret().as_bytes()) {
        Ok(token) => Ok(token),
        Err(_) => Err(TokenError::Signing),
    }
}

/// Issues a token for `name` that expires ten days from now. The clock decides
/// the expiry, so the contract holds for whatever instant it showed.
pub fn create_token(name: &str) -> (result: Result<String, TokenError>)
    ensures
        exists|now: Timestamp|
            match result {
                Ok(token) => #[trigger] issued(name@, now) == Ok::<Seq<char>, TokenError>(token@)
                    && decoded(token@) == Some(ClaimsView { sub: name@, exp: expiry_at(now) }),
                Err(e) => issued(name@, now) == Err::<Seq<char>, TokenError>(e),
            },
        result matches Ok(token) ==> is_word(token@),
{
    let now = utc_now();
    create_token_at(name, now)
}

/// What a token stands for, whatever the time: the claims it carries if it
/// was signed under the library's secret and holds both a subject and an
/// expiry.
pub open spec fn decoded(token: Seq<char>) -> Option<ClaimsView> {
    match token_claims(token, secret_bytes()) {
        Some((Some(sub), Some(exp))) => Some(ClaimsView { sub, exp }),
        Some(_) => None,
        None => None,
    }
}

/// What checking `token` at the second `now` gives: its claims while
/// `now <= exp`, `Expired` from the second after `exp` on, `Invalid` where the
/// token does not stand for claims at all.
pub open spec fn checked(token: Seq<char>, now: u64) -> Result<ClaimsView, AuthError> {
    match decoded(token) {
        None => Err(AuthError::Invalid),
        Some(claims) => if claims.exp < now {
            Err(AuthError::Expired)
        } else {
            Ok(claims)
        },
    }
}

/// Judges claims that were read out of a token against the second `now`.
pub fn check_claims(raw: Option<RawClaims>, now: u64) -> (result: Result<Claims, AuthError>)
    ensures
        match raw {
            Some(RawClaims { sub: Some(sub), exp: Some(exp) }) => if exp < now {
                result == Err::<Claims, AuthError>(AuthError::Expired)
            } else {
                result matches Ok(c) && c.sub == sub && c.exp == exp
            },
            _ => result == Err::<Claims, AuthError>(AuthError::Invalid),
        },
{
    match raw {
        Some(RawClaims { sub: Some(sub), exp: Some(exp) }) => {
            if exp < now {
                Err(AuthError::Expired)
            } else {
                Ok(Claims { sub, exp })
            }
        },
        _ => Err(AuthError::Invalid),
    }
}

/// Verifies `token` as of the second `now`: the signature must match and the
/// expiry must not have passed.
pub fn decode_token_at(token: &str, now: u64) -> (result: Result<Claims, AuthError>)
    ensures
        match result {
            Ok(c) => checked(token@, now) == Ok::<ClaimsView, AuthError>(c@),
            Err(e) => checked(token@, now) == Err::<ClaimsView, AuthError>(e),
        },
{
    let raw = match read_claims(token, secret().as_bytes()) {
        Ok(raw) => Some(raw),
        Err(_) => None,
    };
    check_claims(raw, now)
}

/// The second a clock reading stands for when a token is checked: the whole
/// seconds since the epoch, and 0 for a clock before the epoch.
pub open spec fn checking_second(now: Timestamp) -> u64 {
    if now.secs < 0 {
        0
    } else {
        now.secs as u64
    }
}

/// The second at which tokens are checked when the clock reads `now`.
pub fn second_of(now: Timestamp) -> (second: u64)
    ensures
        second == checking_second(now),
{
    if now.secs < 0 {
        0
    } else {
        now.secs as u64
    }
}

/// Verifies `token` against the clock.
pub fn decode_token(token: &str) -> (result: Result<Claims, AuthError>)
    ensures
        exists|now: u64|
            match result {
                Ok(c) => #[trigger] checked(token@, now) == Ok::<ClaimsView, AuthError>(c@),
                Err(e) => checked(token@, now) == Err::<ClaimsView, AuthError>(e),
            },
        decoded(token@) is None ==> result == Err::<Claims, AuthError>(AuthError::Invalid),
{
    let now = second_of(utc_now());
    decode_token_at(token, now)
}

/// A token is accepted up to the second of its expiry and rejected at every
/// later second, whoever presents it and however often it was accepted
/// before.
pub proof fn expiry_is_enforced(token: Seq<char>, claims: ClaimsView, now: u64)
    requires
        decoded(token) == Some(claims),
    ensures
        now > claims.exp ==> checked(token, now) == Err::<ClaimsView, AuthError>(AuthError::Expired),
        now <= claims.exp ==> checked(token, now) == Ok::<ClaimsView, AuthError>(claims),
{
}

/// What is said of a request without a usable identity.
pub open spec fn message_of(error: AuthError) -> Seq<char> {
    match error {
        AuthError::Missing => "Header Authorization is not found"@,
        AuthError::Invalid => "InvalidToken"@,
        AuthError::Expired => "ExpiredSignature"@,
    }
}

impl AuthError {
    /// What is said of the error, for the log.
    pub fn message(&self) -> (text: &'static str)
        ensures
            text@ == message_of(*self),
    {
        match self {
            AuthError::Missing => "Header Authorization is not found",
            AuthError::Invalid => "InvalidToken",
            AuthError::Expired => "ExpiredSignature",
        }
    }
}

} // verus!
