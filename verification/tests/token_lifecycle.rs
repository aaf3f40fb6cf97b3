use parkrust::errors::ParseError;
use parkrust::models::{AuthResponse, RefreshTokenResponse};
use parkrust::token::Token;

fn sample_token(expires_at: i64) -> Token {
    Token {
        access_token: String::from("access-abc"),
        refresh_token: String::from("refresh-xyz"),
        expires_at,
    }
}

#[test]
fn expiry_boundary_at_exact_equality() {
    let token = sample_token(1_000_000);
    assert!(token.is_expired(1_000_000));
    assert!(!token.is_expired(999_999));
    assert!(token.is_expired(1_000_001));
}

#[test]
fn is_expired_now_against_the_clock() {
    // The system clock is after the epoch, so a token expiring at the
    // epoch is long expired and one expiring at the largest instant is not.
    let stale = sample_token(0);
    assert!(stale.is_expired_now());
    let fresh = sample_token(i64::MAX);
    assert!(!fresh.is_expired_now());
}

#[test]
fn token_from_auth_response_parses_string_lifetime() {
    let response = AuthResponse {
        access_token: String::from("acc"),
        refresh_token: String::from("ref"),
        expires_in: String::from("7200"),
    };
    let token = Token::from_auth_response(&response, 1000).unwrap();
    assert_eq!(token.access_token, "acc");
    assert_eq!(token.refresh_token, "ref");
    assert_eq!(token.expires_at, 8200);
}

#[test]
fn token_from_auth_response_rejects_bad_lifetime() {
    let response = AuthResponse {
        access_token: String::from("acc"),
        refresh_token: String::from("ref"),
        expires_in: String::from("2h"),
    };
    assert_eq!(Token::from_auth_response(&response, 1000), Err(ParseError::Number));
    let empty = AuthResponse {
        access_token: String::from("acc"),
        refresh_token: String::from("ref"),
        expires_in: String::new(),
    };
    assert_eq!(Token::from_auth_response(&empty, 1000), Err(ParseError::Number));
}

#[test]
fn token_from_refresh_response_carries_refresh_credential_forward() {
    let response = RefreshTokenResponse {
        access_token: String::from("newer-access"),
        expires_in: 3600,
    };
    let token = Token::from_refresh_response(&response, "kept-refresh", 50);
    assert_eq!(token.access_token, "newer-access");
    assert_eq!(token.refresh_token, "kept-refresh");
    assert_eq!(token.expires_at, 3650);
}
