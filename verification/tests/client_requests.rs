use parkrust::client::{
    login_request, normalize_athlete_id, refresh_request, AuthenticatedParkrunClient, HttpMethod,
    SendPlan,
};
use parkrust::models::RefreshTokenResponse;
use parkrust::token::Token;

fn sample_token(expires_at: i64) -> Token {
    Token {
        access_token: String::from("access-abc"),
        refresh_token: String::from("refresh-xyz"),
        expires_at,
    }
}

#[test]
fn athlete_id_prefix_stripping() {
    assert_eq!(normalize_athlete_id("A123456"), "123456");
    assert_eq!(normalize_athlete_id("a123456"), "123456");
    assert_eq!(normalize_athlete_id("123456"), "123456");
    assert_eq!(normalize_athlete_id(""), "");
}

#[test]
fn prefixed_and_bare_ids_send_the_same_username() {
    let prefixed = login_request("A123456", "pw");
    let bare = login_request("123456", "pw");
    assert_eq!(prefixed.form, bare.form);
    assert_eq!(prefixed.form[0], (String::from("username"), String::from("123456")));
}

#[test]
fn login_request_shape() {
    let r = login_request("A123456", "hunter2");
    assert_eq!(r.method, HttpMethod::Post);
    assert_eq!(r.path, "/user_auth.php");
    assert!(r.query.is_empty());
    assert!(r.client_auth);
    assert_eq!(r.headers[0], (String::from("X-Powered-By"), String::from("Park Rust")));
    assert_eq!(
        r.headers[1],
        (String::from("Content-Type"), String::from("application/x-www-form-urlencoded"))
    );
    assert_eq!(
        r.form,
        vec![
            (String::from("username"), String::from("123456")),
            (String::from("password"), String::from("hunter2")),
            (String::from("scope"), String::from("app")),
            (String::from("grant_type"), String::from("password")),
        ]
    );
}

#[test]
fn refresh_request_shape() {
    let r = refresh_request("refresh-xyz");
    assert_eq!(r.method, HttpMethod::Post);
    assert_eq!(r.path, "/auth/refresh");
    assert!(r.client_auth);
    assert_eq!(
        r.form,
        vec![
            (String::from("refresh_token"), String::from("refresh-xyz")),
            (String::from("grant_type"), String::from("refresh_token")),
        ]
    );
}

#[test]
fn authenticated_request_attaches_access_token() {
    let client = AuthenticatedParkrunClient::new(sample_token(100));
    let r = client.request(HttpMethod::Get, "/v1/results");
    assert_eq!(r.method, HttpMethod::Get);
    assert_eq!(r.path, "/v1/results");
    assert!(!r.client_auth);
    assert_eq!(r.query, vec![(String::from("access_token"), String::from("access-abc"))]);
    assert_eq!(r.headers, vec![(String::from("X-Powered-By"), String::from("Park Rust"))]);
    assert!(r.form.is_empty());
}

#[test]
fn expired_token_plans_exactly_one_refresh() {
    let client = AuthenticatedParkrunClient::new(sample_token(500));
    assert_eq!(client.plan_send(500), SendPlan::RefreshFirst);
    assert_eq!(client.plan_send(501), SendPlan::RefreshFirst);
    assert_eq!(client.plan_send(499), SendPlan::Direct);
}

#[test]
fn complete_refresh_replaces_token_and_keeps_refresh_credential() {
    let mut client = AuthenticatedParkrunClient::new(sample_token(500));
    let response = RefreshTokenResponse {
        access_token: String::from("access-next"),
        expires_in: 7200,
    };
    client.complete_refresh(&response, 600);
    assert_eq!(client.token.access_token, "access-next");
    assert_eq!(client.token.refresh_token, "refresh-xyz");
    assert_eq!(client.token.expires_at, 7800);
    assert_eq!(client.plan_send(600), SendPlan::Direct);
}
