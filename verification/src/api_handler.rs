//! The routes of the service: which operation a method and a path ask for.
//!
//! A route is a method together with a path under `/api`. Three routes carry a
//! number in the path. Whatever matches no route is answered as not existing.

use vstd::prelude::*;
use vstd::string::*;
use crate::text::{chars_of, has_at, same_text, stands_at};

verus! {

/// The method of a request, as far as the routes tell methods apart.
#[derive(Clone, Copy, Debug, PartialEq, Eq, Structural)]
pub enum Method {
    Get,
    Post,
    Delete,
    Other,
}

/// What a request asks for.
#[derive(Clone, Copy, Debug, PartialEq, Eq, Structural)]
pub enum Route {
    /// `POST /api/auth/login`
    Login,
    /// `GET /api/auth/current_user`
    CurrentUser,
    /// `GET /api/table`
    Tables,
    /// `GET /api/table/{id}/order`
    TableOrders { restaurant_table_id: i32 },
    /// `DELETE /api/table/order`
    ClearTable,
    /// `GET /api/order/{id}`
    Order { order_id: i32 },
    /// `POST /api/order`
    AddOrder,
    /// `POST /api/orders`
    AddOrders,
    /// `DELETE /api/order`
    CancelOrder,
    /// `DELETE /api/order/complete`
    CompleteOrder,
    /// `GET /api/menu`
    Menus,
    /// `GET /api/menu/{id}`
    Menu { menu_id: i32 },
    /// Anything else.
    NotFound,
}

/// Whether `c` is one of `0` to `9`.
pub open spec fn is_digit(c: char) -> bool {
    48 <= c as u32 <= 57
}

/// The value of a digit.
pub open spec fn digit_value(c: char) -> int {
    c as u32 - 48
}

/// Whether a text consists of digits alone.
pub open spec fn all_digits(s: Seq<char>) -> bool {
    forall|i: int| 0 <= i < s.len() ==> is_digit(#[trigger] s[i])
}

/// The number that a text of digits writes in decimal.
pub open spec fn number(s: Seq<char>) -> int
    decreases s.len(),
{
    if s.len() == 0 {
        0
    } else {
        number(s.drop_last()) * 10 + digit_value(s.last())
    }
}

/// The integer that a text writes: digits, at least one, after at most one
/// sign.
pub open spec fn integer(s: Seq<char>) -> Option<int> {
    if s.len() > 0 && (s[0] == '-' || s[0] == '+') {
        let digits = s.subrange(1, s.len() as int);
        if digits.len() > 0 && all_digits(digits) {
            Some(
                if s[0] == '-' {
                    -number(digits)
                } else {
                    number(digits)
                },
            )
        } else {
            None
        }
    } else if s.len() > 0 && all_digits(s) {
        Some(number(s))
    } else {
        None
    }
}

/// The 32-bit integer that a text writes, if it writes one.
pub open spec fn path_number(s: Seq<char>) -> Option<i32> {
    match integer(s) {
        Some(v) => if i32::MIN <= v <= i32::MAX {
            Some(v as i32)
        } else {
            None
        },
        None => None,
    }
}

/// What stands in `path` between `before` and `after`, if `path` begins with
/// the one and ends with the other.
pub open spec fn between(path: Seq<char>, before: Seq<char>, after: Seq<char>) -> Option<
    Seq<char>,
> {
    if before.len() + after.len() <= path.len() && stands_at(path, 0, before) && stands_at(
        path,
        path.len() - after.len(),
        after,
    ) {
        Some(path.subrange(before.len() as int, path.len() - after.len()))
    } else {
        None
    }
}

/// The number that `path` carries between `before` and `after`.
pub open spec fn number_between(path: Seq<char>, before: Seq<char>, after: Seq<char>) -> Option<
    i32,
> {
    match between(path, before, after) {
        Some(part) => path_number(part),
        None => None,
    }
}

/// The route of a request.
pub open spec fn route_of(method: Method, path: Seq<char>) -> Route {
    match method {
        Method::Post => if path == "/api/auth/login"@ {
            Route::Login
        } else if path == "/api/order"@ {
            Route::AddOrder
        } else if path == "/api/orders"@ {
            Route::AddOrders
        } else {
            Route::NotFound
        },
        Method::Delete => if path == "/api/table/order"@ {
            Route::ClearTable
        } else if path == "/api/order"@ {
            Route::CancelOrder
        } else if path == "/api/order/complete"@ {
            Route::CompleteOrder
        } else {
            Route::NotFound
        },
        Method::Get => if path == "/api/auth/current_user"@ {
            Route::CurrentUser
        } else if path == "/api/table"@ {
            Route::Tables
        } else if path == "/api/menu"@ {
            Route::Menus
        } else {
            match number_between(path, "/api/table/"@, "/order"@) {
                Some(restaurant_table_id) => Route::TableOrders { restaurant_table_id },
                None => match number_between(path, "/api/order/"@, ""@) {
                    Some(order_id) => Route::Order { order_id },
                    None => match number_between(path, "/api/menu/"@, ""@) {
                        Some(menu_id) => Route::Menu { menu_id },
                        None => Route::NotFound,
                    },
                },
            }
        },
        Method::Other => Route::NotFound,
    }
}

/// The number of a text of digits does not shrink as the text grows.
proof fn number_grows(s: Seq<char>, k: int)
    requires
        all_digits(s),
        0 <= k <= s.len(),
    ensures
        0 <= number(s.subrange(0, k)) <= number(s),
    decreases s.len() - k,
{
    if k == s.len() {
        assert(s.subrange(0, k) =~= s);
        nonnegative(s);
    } else {
        number_grows(s, k + 1);
        let longer = s.subrange(0, k + 1);
        assert(longer.drop_last() =~= s.subrange(0, k));
        assert(is_digit(s[k]));
        nonnegative(s.subrange(0, k));
    }
}

proof fn nonnegative(s: Seq<char>)
    requires
        all_digits(s),
    ensures
        number(s) >= 0,
    decreases s.len(),
{
    if s.len() > 0 {
        assert(is_digit(s[s.len() - 1]));
        nonnegative(s.drop_last());
    }
}

/// Reads the digits of `text` from `from` to `to`. Gives their number, or
/// `None` where a character is no digit or the number is above `limit`.
fn read_digits(text: &Vec<char>, from: usize, to: usize, limit: i64) -> (value: Option<i64>)
    requires
        from <= to <= text.len(),
        0 <= limit <= 0x8000_0000,
    ensures
        value is Some <==> all_digits(text@.subrange(from as int, to as int)) && number(
            text@.subrange(from as int, to as int),
        ) <= limit,
        value matches Some(v) ==> v == number(text@.subrange(from as int, to as int)) && 0 <= v
            <= limit,
{
    let ghost digits = text@.subrange(from as int, to as int);
    let mut value: i64 = 0;
    let mut i: usize = from;
    while i < to
        invariant
            from <= i <= to <= text.len(),
            0 <= limit <= 0x8000_0000,
            digits == text@.subrange(from as int, to as int),
            all_digits(digits.subrange(0, i - from)),
            value == number(digits.subrange(0, i - from)),
            0 <= value <= limit,
        decreases to - i,
    {
        let c = text[i];
        let u: u32 = c as u32;
        if u < 48 || u > 57 {
            assert(!is_digit(digits[i - from]));
            return None;
        }
        let d: i64 = (u - 48) as i64;
        let ghost longer = digits.subrange(0, i - from + 1);
        assert(longer.drop_last() =~= digits.subrange(0, i - from));
        assert(longer.last() == c);
        let next: i64 = value * 10 + d;
        assert(next == number(longer));
        assert(all_digits(longer)) by {
            assert forall|k: int| 0 <= k < longer.len() implies is_digit(#[trigger] longer[k]) by {
                if k < i - from {
                    assert(longer[k] == digits.subrange(0, i - from)[k]);
                }
            }
        }
        if next > limit {
            proof {
                if all_digits(digits) {
                    number_grows(digits, i - from + 1);
                }
            }
            return None;
        }
        value = next;
        i += 1;
    }
    assert(digits.subrange(0, to - from) =~= digits);
    Some(value)
}

/// Reads the 32-bit integer that stands in `text` from `from` to `to`.
fn read_number(text: &Vec<char>, from: usize, to: usize) -> (value: Option<i32>)
    requires
        from <= to <= text.len(),
    ensures
        value == path_number(text@.subrange(from as int, to as int)),
{
    let ghost s = text@.subrange(from as int, to as int);
    if from == to {
        return None;
    }
    let first = text[from];
    assert(s[0] == first);
    if first == '-' || first == '+' {
        assert(s.subrange(1, s.len() as int) =~= text@.subrange(from + 1, to as int));
        if from + 1 == to {
            return None;
        }
        if first == '-' {
            match read_digits(text, from + 1, to, 0x8000_0000) {
                Some(v) => Some((-v) as i32),
                None => None,
            }
        } else {
            match read_digits(text, from + 1, to, 0x7fff_ffff) {
                Some(v) => Some(v as i32),
                None => None,
            }
        }
    } else {
        match read_digits(text, from, to, 0x7fff_ffff) {
            Some(v) => Some(v as i32),
            None => None,
        }
    }
}

/// Reads the number that `path` carries between `before` and `after`.
fn read_between(path: &Vec<char>, before: &str, after: &str) -> (value: Option<i32>)
    ensures
        value == number_between(path@, before@, after@),
{
    let b = before.unicode_len();
    let a = after.unicode_len();
    if b > path.len() || a > path.len() - b {
        return None;
    }
    if has_at(path, 0, before) && has_at(path, path.len() - a, after) {
        read_number(path, b, path.len() - a)
    } else {
        None
    }
}

/// Resolves a request to its route.
pub fn api_scope(method: Method, path: &str) -> (route: Route)
    ensures
        route == route_of(method, path@),
{
    match method {
        Method::Post => if same_text(path, "/api/auth/login") {
            Route::Login
        } else if same_text(path, "/api/order") {
            Route::AddOrder
        } else if same_text(path, "/api/orders") {
            Route::AddOrders
        } else {
            Route::NotFound
        },
        Method::Delete => if same_text(path, "/api/table/order") {
            Route::ClearTable
        } else if same_text(path, "/api/order") {
            Route::CancelOrder
        } else if same_text(path, "/api/order/complete") {
            Route::CompleteOrder
        } else {
            Route::NotFound
        },
        Method::Get => if same_text(path, "/api/auth/current_user") {
            Route::CurrentUser
        } else if same_text(path, "/api/table") {
            Route::Tables
        } else if same_text(path, "/api/menu") {
            Route::Menus
        } else {
            let chars = chars_of(path);
            match read_between(&chars, "/api/table/", "/order") {
                Some(restaurant_table_id) => Route::TableOrders { restaurant_table_id },
                None => match read_between(&chars, "/api/order/", "") {
                    Some(order_id) => Route::Order { order_id },
                    None => match read_between(&chars, "/api/menu/", "") {
                        Some(menu_id) => Route::Menu { menu_id },
                        None => Route::NotFound,
                    },
                },
            }
        },
        Method::Other => Route::NotFound,
    }
}

/// What a request for something that is no route is told.
pub open spec fn not_found_text(path: Seq<char>) -> Seq<char> {
    "This API: '"@ + path + "' does not exist."@
}

/// The body of the answer to a request that matches no route.
pub fn api_handler(path: &str) -> (body: String)
    ensures
        body@ == not_found_text(path@),
{
    let mut body = String::from_str("This API: '");
    body.append(path);
    body.append("' does not exist.");
    body
}

/// Whether a route is open to callers without a token.
pub open spec fn is_public_route(route: Route) -> bool {
    route == Route::Login || route == Route::CurrentUser
}

impl Route {
    /// Whether the route is open to callers without a token: logging in and
    /// asking who one is are, everything else is not.
    pub fn is_public(&self) -> (b: bool)
        ensures
            b == is_public_route(*self),
    {
        match self {
            Route::Login => true,
            Route::CurrentUser => true,
            _ => false,
        }
    }
}

} // verus!
