//! The access gate: the filter in front of every protected route.
//!
//! A request passes when it carries a valid bearer token or when its path is
//! one of the two public routes. The access gate reads the `Authorization`
//! header and the path, never the body, and leaves the request as it found
//! it.

use vstd::prelude::*;
use vstd::string::*;
use crate::api_handler::{is_public_route, number_between, route_of, Method, Route};
use crate::bearer::{bearer_header, header_carries_its_token, header_view, verified, verify_at};
use crate::clock::utc_now;
use crate::text::{is_word, same_text};
use crate::token::{decoded, second_of, ClaimsView};

verus! {

/// What the access gate does with a request.
#[derive(Clone, Copy, Debug, PartialEq, Eq, Structural)]
pub enum Admission {
    /// The request goes on to its handler, unchanged.
    Forward,
    /// The request is answered with "unauthorized"; no handler runs.
    Unauthorized,
}

/// The routes that bypass the access gate, by exact path.
pub open spec fn is_public_path(path: Seq<char>) -> bool {
    path == "/api/auth/login"@ || path == "/api/auth/current_user"@
}

/// Whether the access gate lets a request pass at the second `now`.
pub open spec fn admitted(authorization: Option<Seq<char>>, path: Seq<char>, now: u64) -> bool {
    verified(authorization, now) is Ok || is_public_path(path)
}

/// Whether `path` is one of the public routes.
pub fn is_public(path: &str) -> (b: bool)
    ensures
        b == is_public_path(path@),
{
    same_text(path, "/api/auth/login") || same_text(path, "/api/auth/current_user")
}

/// The access gate, before it is put in front of a service.
#[derive(Clone, Copy, Debug)]
pub struct JwtMiddleware;

/// The access gate in front of the service `S`.
pub struct JwtMiddlewareService<S> {
    pub service: S,
}

impl JwtMiddleware {
    /// Puts the access gate in front of `service`.
    pub fn new_transform<S>(&self, service: S) -> (gated: JwtMiddlewareService<S>)
        ensures
            gated.service == service,
    {
        JwtMiddlewareService { service }
    }
}

impl<S> JwtMiddlewareService<S> {
    /// Decides on a request as of the second `now`, from the value of its
    /// `Authorization` header and its path. The request is forwarded exactly
    /// when it is verified or the path is public.
    pub fn call_at(&self, authorization: Option<&str>, path: &str, now: u64) -> (decision:
        Admission)
        ensures
            decision == if admitted(header_view(authorization), path@, now) {
                Admission::Forward
            } else {
                Admission::Unauthorized
            },
    {
        let is_logged_in = verify_at(authorization, now).is_ok();
        if !is_logged_in && !is_public(path) {
            Admission::Unauthorized
        } else {
            Admission::Forward
        }
    }

    /// Decides on a request against the clock.
    pub fn call(&self, authorization: Option<&str>, path: &str) -> (decision: Admission)
        ensures
            exists|now: u64|
                decision == if #[trigger] admitted(header_view(authorization), path@, now) {
                    Admission::Forward
                } else {
                    Admission::Unauthorized
                },
            is_public_path(path@) ==> decision == Admission::Forward,
            header_view(authorization) is None && !is_public_path(path@) ==> decision
                == Admission::Unauthorized,
    {
        let now = second_of(utc_now());
        self.call_at(authorization, path, now)
    }
}

/// The two public routes are open to a request without any token, and they
/// are the routes of the two public paths.
pub proof fn public_routes_are_open(path: Seq<char>, now: u64)
    ensures
        is_public_path(path) ==> admitted(None, path, now),
        is_public_path(path) <==> route_of(Method::Post, path) == Route::Login || route_of(
            Method::Get,
            path,
        ) == Route::CurrentUser,
{
}

/// Every other route lies behind the access gate: a request for it that
/// carries no valid token is turned away, so its handler never runs.
pub proof fn other_routes_are_gated(
    authorization: Option<Seq<char>>,
    method: Method,
    path: Seq<char>,
    now: u64,
)
    requires
        route_of(method, path) != Route::NotFound,
        !is_public_route(route_of(method, path)),
        verified(authorization, now) is Err,
    ensures
        !admitted(authorization, path, now),
{
    reveal_strlit("/api/auth/login");
    reveal_strlit("/api/auth/current_user");
    reveal_strlit("/api/order");
    reveal_strlit("/api/orders");
    reveal_strlit("/api/table/order");
    reveal_strlit("/api/order/complete");
    reveal_strlit("/api/table");
    reveal_strlit("/api/menu");
    reveal_strlit("/api/table/");
    reveal_strlit("/api/order/");
    reveal_strlit("/api/menu/");
    let login = "/api/auth/login"@;
    let who = "/api/auth/current_user"@;
    if number_between(path, "/api/table/"@, "/order"@) is Some {
        assert(path.subrange(0, 11)[5] == 't');
    }
    if number_between(path, "/api/order/"@, ""@) is Some {
        assert(path.subrange(0, 11)[5] == 'o');
    }
    if number_between(path, "/api/menu/"@, ""@) is Some {
        assert(path.subrange(0, 10)[5] == 'm');
    }
    assert(login[5] == 'a');
    assert(who[5] == 'a');
}

/// A token that stands for claims opens every route while it has not
/// expired, when it is presented as `Bearer <token>`; once it has expired it
/// opens none but the public ones.
pub proof fn token_opens_the_gate_until_it_expires(
    token: Seq<char>,
    claims: ClaimsView,
    path: Seq<char>,
    now: u64,
)
    requires
        is_word(token),
        decoded(token) == Some(claims),
    ensures
        now <= claims.exp ==> admitted(Some(bearer_header(token)), path, now),
        now > claims.exp && !is_public_path(path) ==> !admitted(
            Some(bearer_header(token)),
            path,
            now,
        ),
{
    header_carries_its_token(token);
}

} // verus!
