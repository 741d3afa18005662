//! Logging in, and telling a caller who they are.
//!
//! A login succeeds for a user that the store holds and whose password
//! matches the stored hash; it is answered with a fresh token. Comparing the
//! password with the hash is the work of the `bcrypt` crate.

use vstd::prelude::*;
use vstd::string::*;
use crate::bearer::{
    bearer_header,
    header_carries_its_token,
    header_view,
    verified,
    verify,
    verify_at,
};
use crate::clock::{utc_now, Timestamp};
use crate::model::User;
use crate::text::is_word;
use crate::token::{create_token_at, decoded, expiry_at, issued, AuthError, Claims, ClaimsView};

verus! {

/// The body of a login request.
#[derive(Clone, Debug)]
pub struct LoginRequest {
    pub name: String,
    pub password: String,
}

/// What the store holds of the user who tries to log in.
#[derive(Clone, Debug)]
pub struct Account {
    pub id: i32,
    pub password: String,
}

/// Why a login was refused.
#[derive(Clone, Copy, Debug, PartialEq, Eq, Structural)]
pub enum LoginError {
    /// No such user, or the password does not match.
    Unauthorized,
    /// The user is who they say, but no token could be issued.
    Internal,
}

/// A logged-in user as a mathematical value.
pub ghost struct UserView {
    pub id: i32,
    pub name: Seq<char>,
    pub token: Seq<char>,
}

/// The error of `bcrypt`, carried through unopened: a password that cannot
/// be compared is a password that does not match.
#[verifier::external_type_specification]
#[verifier::external_body]
pub struct ExBcryptError(bcrypt::BcryptError);

/// What `bcrypt::verify` says of a password and a stored hash: whether they
/// match, or `None` where it reports an error (a hash that is not one).
pub uninterp spec fn password_matches(password: Seq<char>, hash: Seq<char>) -> Option<bool>;

/// Calls `bcrypt::verify`. The contract names the outcome: it depends on the
/// password and the hash alone.
#[verifier::external_body]
fn check_password(password: &str, hash: &str) -> (result: Result<bool, bcrypt::BcryptError>)
    ensures
        result is Ok <==> password_matches(password@, hash@) is Some,
        result matches Ok(b) ==> password_matches(password@, hash@) == Some(b),
{
    bcrypt::verify(password, hash)
}

/// What a login gives at the instant `now`, from the request and from what
/// the store holds under the name: refused without an account or without a
/// matching password, else the user with a token issued at `now`.
pub open spec fn login_result(
    name: Seq<char>,
    password: Seq<char>,
    account: Option<(i32, Seq<char>)>,
    now: Timestamp,
) -> Result<UserView, LoginError> {
    match account {
        None => Err(LoginError::Unauthorized),
        Some((id, hash)) => if password_matches(password, hash) == Some(true) {
            match issued(name, now) {
                Ok(token) => Ok(UserView { id, name, token }),
                Err(_) => Err(LoginError::Internal),
            }
        } else {
            Err(LoginError::Unauthorized)
        },
    }
}

/// The account as a mathematical value.
pub open spec fn account_view(account: Option<Account>) -> Option<(i32, Seq<char>)> {
    match account {
        Some(a) => Some((a.id, a.password@)),
        None => None,
    }
}

/// The outcome of a login measured against what it should be.
pub open spec fn login_is(result: Result<User, LoginError>, expected: Result<UserView, LoginError>) -> bool {
    match result {
        Ok(user) => expected == Ok::<UserView, LoginError>(
            UserView { id: user.id, name: user.name@, token: user.token@ },
        ),
        Err(e) => expected == Err::<UserView, LoginError>(e),
    }
}

/// Whether the store holds an account and the password matches its hash.
pub open spec fn account_matches(password: Seq<char>, account: Option<(i32, Seq<char>)>) -> bool {
    account matches Some((_, hash)) && password_matches(password, hash) == Some(true)
}

/// What holds of a user who was logged in at `now`: the id is the
/// account's, the name is the one asked for, and the token is a single word
/// that stands for exactly this name with an expiry ten days after `now`.
pub open spec fn logged_in(
    user: User,
    name: Seq<char>,
    account: Option<(i32, Seq<char>)>,
    now: Timestamp,
) -> bool {
    &&& account matches Some((id, _)) && user.id == id
    &&& user.name@ == name
    &&& is_word(user.token@)
    &&& decoded(user.token@) == Some(ClaimsView { sub: name, exp: expiry_at(now) })
}

/// Logs a user in as of the instant `now`. `account` is what the store holds
/// under the name of the request, if anything.
pub fn login_at(req: &LoginRequest, account: Option<Account>, now: Timestamp) -> (result: Result<
    User,
    LoginError,
>)
    ensures
        login_is(result, login_result(req.name@, req.password@, account_view(account), now)),
        result matches Ok(user) ==> logged_in(user, req.name@, account_view(account), now),
        result is Ok <==> account_matches(req.password@, account_view(account)) && now.secs >= 0,
{
    let account = match account {
        Some(account) => account,
        None => {
            return Err(LoginError::Unauthorized);
        },
    };
    match check_password(req.password.as_str(), account.password.as_str()) {
        Ok(true) => match create_token_at(req.name.as_str(), now) {
            Ok(token) => Ok(User { id: account.id, name: req.name.clone(), token }),
            Err(_) => Err(LoginError::Internal),
        },
        _ => Err(LoginError::Unauthorized),
    }
}

/// Logs a user in; the token is issued as of the clock.
pub fn login(req: &LoginRequest, account: Option<Account>) -> (result: Result<User, LoginError>)
    ensures
        exists|now: Timestamp|
            login_is(
                result,
                #[trigger] login_result(req.name@, req.password@, account_view(account), now),
            ) && (result matches Ok(user) ==> logged_in(
                user,
                req.name@,
                account_view(account),
                now,
            )),
        !account_matches(req.password@, account_view(account)) ==> result == Err::<
            User,
            LoginError,
        >(LoginError::Unauthorized),
        result matches Ok(user) ==> is_word(user.token@),
{
    let now = utc_now();
    login_at(req, account, now)
}

/// Tells a caller who their token says they are, as of the second `now`.
pub fn current_user_at(authorization: Option<&str>, now: u64) -> (result: Result<Claims, AuthError>)
    ensures
        match result {
            Ok(c) => verified(header_view(authorization), now) == Ok::<ClaimsView, AuthError>(c@),
            Err(e) => verified(header_view(authorization), now) == Err::<ClaimsView, AuthError>(e),
        },
{
    verify_at(authorization, now)
}

/// Tells a caller who their token says they are. The route is public, but
/// without a valid token it has nothing to tell.
pub fn current_user(authorization: Option<&str>) -> (result: Result<Claims, AuthError>)
    ensures
        exists|now: u64|
            match result {
                Ok(c) => #[trigger] verified(header_view(authorization), now) == Ok::<
                    ClaimsView,
                    AuthError,
                >(c@),
                Err(e) => verified(header_view(authorization), now) == Err::<
                    ClaimsView,
                    AuthError,
                >(e),
            },
        header_view(authorization) is None ==> result == Err::<Claims, AuthError>(
            AuthError::Missing,
        ),
{
    verify(authorization)
}

/// The token of a user who was logged in at `now`, presented as
/// `Bearer <token>`, verifies as that user with an expiry ten days after
/// `now`, at every second up to the expiry, and as expired from then on.
pub proof fn logged_in_user_is_verified(
    user: User,
    name: Seq<char>,
    account: Option<(i32, Seq<char>)>,
    now: Timestamp,
    second: u64,
)
    requires
        logged_in(user, name, account, now),
    ensures
        second <= expiry_at(now) ==> verified(Some(bearer_header(user.token@)), second) == Ok::<
            ClaimsView,
            AuthError,
        >(ClaimsView { sub: name, exp: expiry_at(now) }),
        second > expiry_at(now) ==> verified(Some(bearer_header(user.token@)), second) == Err::<
            ClaimsView,
            AuthError,
        >(AuthError::Expired),
        now.secs >= 0 ==> expiry_at(now) == now.secs + 864_000,
{
    header_carries_its_token(user.token@);
}

} // verus!
