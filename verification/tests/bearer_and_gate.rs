use restaurant_pos::bearer::{authorization_for, bearer_token, verify, verify_at};
use restaurant_pos::clock::Timestamp;
use restaurant_pos::gate::{is_public, Admission, JwtMiddleware};
use restaurant_pos::text::is_whitespace;
use restaurant_pos::token::{create_token, create_token_at, AuthError};

fn token_at(name: &str, secs: i64) -> String {
    create_token_at(name, Timestamp { secs, nanos: 0 }).unwrap()
}

#[test]
fn white_space_is_what_the_standard_library_says() {
    let mut code: u32 = 0;
    while code <= 0x10FFFF {
        if let Some(c) = char::from_u32(code) {
            assert_eq!(is_whitespace(c), c.is_whitespace(), "U+{:04X}", code);
        }
        code += 1;
    }
}

#[test]
fn bearer_header_names_its_token() {
    assert_eq!(bearer_token("Bearer abc.def.ghi"), Some("abc.def.ghi".to_owned()));
}

#[test]
fn white_space_around_the_words_is_ignored() {
    assert_eq!(bearer_token("  Bearer \t abc  "), Some("abc".to_owned()));
    assert_eq!(bearer_token("Bearer\u{3000}abc"), Some("abc".to_owned()));
}

#[test]
fn header_needs_exactly_two_words() {
    assert_eq!(bearer_token(""), None);
    assert_eq!(bearer_token("   "), None);
    assert_eq!(bearer_token("Bearer"), None);
    assert_eq!(bearer_token("Bearer "), None);
    assert_eq!(bearer_token("Bearer a b"), None);
    assert_eq!(bearer_token("Bearerabc"), None);
}

#[test]
fn scheme_is_case_sensitive() {
    assert_eq!(bearer_token("bearer abc"), None);
    assert_eq!(bearer_token("BEARER abc"), None);
    assert_eq!(bearer_token("Basic abc"), None);
    assert_eq!(bearer_token("Bearers abc"), None);
    assert_eq!(bearer_token("Beare abc"), None);
}

#[test]
fn bearer_agrees_with_splitting_on_white_space() {
    let samples = [
        "Bearer x",
        "Bearer  x",
        " Bearer x ",
        "Bearer x y",
        "x Bearer",
        "Bearer",
        "Bearer\nx",
        "Bearer\u{a0}tok\u{e9}n",
        "B e a r e r",
        "",
    ];
    for s in samples {
        let parts: Vec<&str> = s.split_whitespace().collect();
        let expected = if parts.len() == 2 && parts[0] == "Bearer" {
            Some(parts[1].to_owned())
        } else {
            None
        };
        assert_eq!(bearer_token(s), expected, "{:?}", s);
    }
}

#[test]
fn request_without_header_is_missing() {
    assert_eq!(verify_at(None, 0).unwrap_err(), AuthError::Missing);
    assert_eq!(verify(None).unwrap_err(), AuthError::Missing);
}

#[test]
fn request_with_malformed_header_is_missing() {
    assert_eq!(verify_at(Some("Token abc"), 0).unwrap_err(), AuthError::Missing);
    assert_eq!(verify_at(Some("Bearer"), 0).unwrap_err(), AuthError::Missing);
}

#[test]
fn request_with_bad_token_is_invalid() {
    assert_eq!(verify_at(Some("Bearer abc"), 0).unwrap_err(), AuthError::Invalid);
}

#[test]
fn request_with_good_token_is_verified() {
    let header = format!("Bearer {}", token_at("alice", 100));
    let claims = verify_at(Some(&header), 200).unwrap();
    assert_eq!(claims.sub, "alice");
    assert_eq!(claims.exp, 864_100);
}

#[test]
fn request_with_expired_token_is_expired() {
    let header = format!("Bearer {}", token_at("alice", 100));
    assert_eq!(verify_at(Some(&header), 864_100).unwrap().exp, 864_100);
    assert_eq!(verify_at(Some(&header), 864_101).unwrap_err(), AuthError::Expired);
}

#[test]
fn fresh_token_verifies_against_the_clock() {
    let header = format!("Bearer {}", create_token("dave").unwrap());
    assert_eq!(verify(Some(&header)).unwrap().sub, "dave");
}

#[test]
fn public_paths_are_exactly_two() {
    assert!(is_public("/api/auth/login"));
    assert!(is_public("/api/auth/current_user"));
    assert!(!is_public("/api/auth/login/"));
    assert!(!is_public("/api/auth"));
    assert!(!is_public("/api/order"));
    assert!(!is_public(""));
    assert!(!is_public("/API/AUTH/LOGIN"));
}

#[test]
fn gated_route_without_token_is_unauthorized() {
    let gate = JwtMiddleware.new_transform(());
    for path in ["/api/order", "/api/orders", "/api/table", "/api/table/4/order", "/api/menu"] {
        assert_eq!(gate.call_at(None, path, 0), Admission::Unauthorized);
        assert_eq!(gate.call(None, path), Admission::Unauthorized);
        assert_eq!(gate.call_at(Some("Bearer nonsense"), path, 0), Admission::Unauthorized);
    }
}

#[test]
fn public_routes_need_no_token() {
    let gate = JwtMiddleware.new_transform(());
    assert_eq!(gate.call_at(None, "/api/auth/login", 0), Admission::Forward);
    assert_eq!(gate.call_at(None, "/api/auth/current_user", 0), Admission::Forward);
    assert_eq!(gate.call(None, "/api/auth/login"), Admission::Forward);
    assert_eq!(gate.call(Some("garbage"), "/api/auth/current_user"), Admission::Forward);
}

#[test]
fn gated_route_with_valid_token_is_forwarded() {
    let gate = JwtMiddleware.new_transform(());
    let header = format!("Bearer {}", token_at("alice", 1_000));
    assert_eq!(gate.call_at(Some(&header), "/api/order", 1_000), Admission::Forward);
    assert_eq!(gate.call_at(Some(&header), "/api/order", 865_000), Admission::Forward);
}

#[test]
fn gated_route_with_expired_token_is_unauthorized() {
    let gate = JwtMiddleware.new_transform(());
    let header = format!("Bearer {}", token_at("alice", 1_000));
    assert_eq!(gate.call_at(Some(&header), "/api/order", 865_001), Admission::Unauthorized);
}

#[test]
fn gate_keeps_the_service_it_wraps() {
    let gate = JwtMiddleware.new_transform(41u8);
    assert_eq!(gate.service, 41u8);
}

#[test]
fn header_for_a_token_is_bearer_blank_token() {
    assert_eq!(authorization_for("abc.def"), "Bearer abc.def");
    assert_eq!(authorization_for(""), "Bearer ");
    assert_eq!(bearer_token(&authorization_for("abc.def")), Some("abc.def".to_owned()));
}

#[test]
fn issued_token_is_a_single_word_and_passes_when_presented() {
    for name in ["alice", "", "two words", "tab\tname", "\u{3000}"] {
        let token = token_at(name, 1_000);
        assert!(!token.is_empty());
        assert!(!token.chars().any(|c| c.is_whitespace()));
        let header = authorization_for(&token);
        assert_eq!(verify_at(Some(&header), 1_000).unwrap().sub, name);
        let gate = JwtMiddleware.new_transform(());
        assert_eq!(gate.call_at(Some(&header), "/api/menu", 865_000), Admission::Forward);
        assert_eq!(gate.call_at(Some(&header), "/api/menu", 865_001), Admission::Unauthorized);
        assert_eq!(gate.call_at(Some(&header), "/api/auth/login", 865_001), Admission::Forward);
    }
}
