//! The `Authorization` header: `Bearer <token>`.
//!
//! The header is read as words separated by white space. It names a token
//! when it has exactly two words and the first is `Bearer`.

use vstd::prelude::*;
use vstd::string::*;
use crate::clock::utc_now;
use crate::text::{chars_of, is_space, is_whitespace, is_word};
use crate::token::{checked, decode_token_at, second_of, AuthError, Claims, ClaimsView};

verus! {

/// The first position at or after `i` that holds no white space, or the end.
pub open spec fn skip_spaces(s: Seq<char>, i: int) -> int
    decreases s.len() - i,
{
    if 0 <= i < s.len() && is_space(s[i]) {
        skip_spaces(s, i + 1)
    } else {
        i
    }
}

/// The first position at or after `i` that holds white space, or the end.
pub open spec fn skip_word(s: Seq<char>, i: int) -> int
    decreases s.len() - i,
{
    if 0 <= i < s.len() && !is_space(s[i]) {
        skip_word(s, i + 1)
    } else {
        i
    }
}

/// The scheme word.
pub open spec fn bearer_word() -> Seq<char> {
    seq!['B', 'e', 'a', 'r', 'e', 'r']
}

/// The token that a header value names: the second of its words, if it has
/// exactly two and the first is `Bearer`.
pub open spec fn bearer_of(header: Seq<char>) -> Option<Seq<char>> {
    let scheme_start = skip_spaces(header, 0);
    let scheme_end = skip_word(header, scheme_start);
    let token_start = skip_spaces(header, scheme_end);
    let token_end = skip_word(header, token_start);
    let rest = skip_spaces(header, token_end);
    if token_start < token_end && rest == header.len() && header.subrange(scheme_start, scheme_end)
        == bearer_word() {
        Some(header.subrange(token_start, token_end))
    } else {
        None
    }
}

fn after_spaces(s: &Vec<char>, from: usize) -> (to: usize)
    requires
        from <= s.len(),
    ensures
        to == skip_spaces(s@, from as int),
        from <= to <= s.len(),
{
    let mut i: usize = from;
    while i < s.len() && is_whitespace(s[i])
        invariant
            from <= i <= s.len(),
            skip_spaces(s@, from as int) == skip_spaces(s@, i as int),
        decreases s.len() - i,
    {
        i += 1;
    }
    i
}

fn after_word(s: &Vec<char>, from: usize) -> (to: usize)
    requires
        from <= s.len(),
    ensures
        to == skip_word(s@, from as int),
        from <= to <= s.len(),
{
    let mut i: usize = from;
    while i < s.len() && !is_whitespace(s[i])
        invariant
            from <= i <= s.len(),
            skip_word(s@, from as int) == skip_word(s@, i as int),
        decreases s.len() - i,
    {
        i += 1;
    }
    i
}

fn is_bearer(s: &Vec<char>, from: usize, to: usize) -> (b: bool)
    requires
        from <= to <= s.len(),
    ensures
        b == (s@.subrange(from as int, to as int) == bearer_word()),
{
    let ghost word = s@.subrange(from as int, to as int);
    if to - from != 6 {
        assert(word.len() != bearer_word().len());
        return false;
    }
    let b = s[from] == 'B' && s[from + 1] == 'e' && s[from + 2] == 'a' && s[from + 3] == 'r'
        && s[from + 4] == 'e' && s[from + 5] == 'r';
    proof {
        assert(word[0] == s@[from as int]);
        assert(word[1] == s@[from + 1]);
        assert(word[2] == s@[from + 2]);
        assert(word[3] == s@[from + 3]);
        assert(word[4] == s@[from + 4]);
        assert(word[5] == s@[from + 5]);
        if b {
            assert(word =~= bearer_word());
        } else {
            assert(bearer_word()[0] == 'B');
            assert(bearer_word()[1] == 'e');
            assert(bearer_word()[2] == 'a');
            assert(bearer_word()[3] == 'r');
            assert(bearer_word()[4] == 'e');
            assert(bearer_word()[5] == 'r');
        }
    }
    b
}

/// The header value that presents `token`: the scheme word, a blank, the
/// token.
pub open spec fn bearer_header(token: Seq<char>) -> Seq<char> {
    bearer_word().push(' ') + token
}

proof fn word_is_skipped_whole(s: Seq<char>, from: int, to: int)
    requires
        0 <= from <= to <= s.len(),
        forall|i: int| from <= i < to ==> !is_space(#[trigger] s[i]),
        to < s.len() ==> is_space(s[to]),
    ensures
        skip_word(s, from) == to,
    decreases to - from,
{
    if from < to {
        word_is_skipped_whole(s, from + 1, to);
    }
}

/// A header made of the scheme word, a blank and a token that is a single
/// word names that token.
pub proof fn header_carries_its_token(token: Seq<char>)
    requires
        is_word(token),
    ensures
        bearer_of(bearer_header(token)) == Some(token),
{
    let header = bearer_header(token);
    assert(header.len() == 7 + token.len());
    assert(header[0] == 'B' && header[1] == 'e' && header[2] == 'a' && header[3] == 'r'
        && header[4] == 'e' && header[5] == 'r' && header[6] == ' ');
    assert forall|i: int| 7 <= i < header.len() implies !is_space(#[trigger] header[i]) by {
        assert(header[i] == token[i - 7]);
    }
    assert(skip_spaces(header, 0) == 0);
    word_is_skipped_whole(header, 0, 6);
    assert(skip_spaces(header, 6) == 7) by {
        assert(is_space(header[6]));
        assert(!is_space(header[7]));
        assert(skip_spaces(header, 7) == 7);
    }
    word_is_skipped_whole(header, 7, header.len() as int);
    assert(skip_spaces(header, header.len() as int) == header.len());
    assert(header.subrange(0, 6) =~= bearer_word());
    assert(header.subrange(7, header.len() as int) =~= token);
}

/// The header value that presents `token`.
pub fn authorization_for(token: &str) -> (header: String)
    ensures
        header@ == bearer_header(token@),
{
    proof {
        reveal_strlit("Bearer ");
    }
    let mut header = String::from_str("Bearer ");
    header.append(token);
    assert(header@ =~= bearer_header(token@));
    header
}

/// Reads the token out of an `Authorization` header value.
pub fn bearer_token(header: &str) -> (token: Option<String>)
    ensures
        match token {
            Some(t) => bearer_of(header@) == Some(t@),
            None => bearer_of(header@) is None,
        },
{
    let chars = chars_of(header);
    let scheme_start = after_spaces(&chars, 0);
    let scheme_end = after_word(&chars, scheme_start);
    let token_start = after_spaces(&chars, scheme_end);
    let token_end = after_word(&chars, token_start);
    let rest = after_spaces(&chars, token_end);
    if token_start < token_end && rest == chars.len() && is_bearer(
        &chars,
        scheme_start,
        scheme_end,
    ) {
        Some(header.substring_char(token_start, token_end).to_owned())
    } else {
        None
    }
}

/// What verifying a request gives at the second `now`, from the value of its
/// `Authorization` header: `Missing` without a header that names a token,
/// else what checking the token gives.
pub open spec fn verified(authorization: Option<Seq<char>>, now: u64) -> Result<
    ClaimsView,
    AuthError,
> {
    match authorization {
        None => Err(AuthError::Missing),
        Some(header) => match bearer_of(header) {
            None => Err(AuthError::Missing),
            Some(token) => checked(token, now),
        },
    }
}

/// The header value as a mathematical value.
pub open spec fn header_view(authorization: Option<&str>) -> Option<Seq<char>> {
    match authorization {
        Some(header) => Some(header@),
        None => None,
    }
}

/// Verifies a request as of the second `now`. `authorization` is the value of
/// the request's `Authorization` header, if it has one that is text.
pub fn verify_at(authorization: Option<&str>, now: u64) -> (result: Result<Claims, AuthError>)
    ensures
        match result {
            Ok(c) => verified(header_view(authorization), now) == Ok::<ClaimsView, AuthError>(c@),
            Err(e) => verified(header_view(authorization), now) == Err::<ClaimsView, AuthError>(e),
        },
{
    match authorization {
        None => Err(AuthError::Missing),
        Some(header) => match bearer_token(header) {
            None => Err(AuthError::Missing),
            Some(token) => decode_token_at(token.as_str(), now),
        },
    }
}

/// Verifies a request against the clock.
pub fn verify(authorization: Option<&str>) -> (result: Result<Claims, AuthError>)
    ensures
        exists|now: u64|
            match result {
                Ok(c) => #[trigger] verified(header_view(authorization), now) == Ok::<
                    ClaimsView,
                    AuthError,
                >(c@),
                Err(e) => verified(header_view(authorization), now) == Err::<
                    ClaimsView,
                    AuthError,
                >(e),
            },
        header_view(authorization) is None ==> result == Err::<Claims, AuthError>(
            AuthError::Missing,
        ),
{
    let now = second_of(utc_now());
    verify_at(authorization, now)
}

} // verus!
