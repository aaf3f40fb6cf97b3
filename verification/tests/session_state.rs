use parkrust::models::RunResult;
use parkrust::route::{switch, Route, Screen};
use parkrust::state::{
    auth_data_from_entries, storage_entries, AuthAction, AuthData, AuthState, Cache,
};
use parkrust::token::Token;

fn sample_token(expires_at: i64) -> Token {
    Token {
        access_token: String::from("access-abc"),
        refresh_token: String::from("refresh-xyz"),
        expires_at,
    }
}

fn sample_result() -> RunResult {
    RunResult {
        series_id: String::from("1"),
        event_number: String::from("102"),
        run_id: String::from("4567"),
        finish_position: String::from("33"),
        gender_position: String::from("21"),
        event_date: String::from("2018-03-10"),
        athlete_id: String::from("718005"),
        run_time: String::from("0:32:47"),
        was_pb_run: String::from("0"),
        age_grading: String::from("51.2"),
        age_category: String::from("JM15-17"),
        first_timer: String::from("0"),
        genuine_pb: String::from("1"),
        updated: String::from("2018-03-10 10:01:02"),
        assisted: None,
    }
}

fn signed_in_state() -> AuthState {
    AuthState {
        data: Some(AuthData { athlete_id: String::from("718005"), token: sample_token(100) }),
        cache: Cache { results_cache: Some(vec![sample_result()]), events_cache: None },
    }
}

#[test]
fn login_replaces_account_and_empties_caches() {
    let state = signed_in_state();
    let fresh = AuthData { athlete_id: String::from("99"), token: sample_token(999) };
    let next = state.reduce(AuthAction::Login(fresh));
    let account = next.data.unwrap();
    assert_eq!(account.athlete_id, "99");
    assert_eq!(account.token.expires_at, 999);
    assert!(next.cache.results_cache.is_none());
    assert!(next.cache.events_cache.is_none());
}

#[test]
fn refresh_keeps_account_and_caches() {
    let state = signed_in_state();
    let next = state.reduce(AuthAction::Refresh(sample_token(500)));
    let account = next.data.unwrap();
    assert_eq!(account.athlete_id, "718005");
    assert_eq!(account.token.expires_at, 500);
    assert_eq!(next.cache.results_cache.unwrap().len(), 1);
}

#[test]
fn caching_fills_only_its_own_slot() {
    let state = AuthState {
        data: None,
        cache: Cache { results_cache: None, events_cache: None },
    };
    let next = state.reduce(AuthAction::CacheResults(vec![sample_result()]));
    assert_eq!(next.cache.results_cache.unwrap().len(), 1);
    assert!(next.cache.events_cache.is_none());
}

#[test]
fn storage_round_trip_resumes_the_session() {
    let data = AuthData { athlete_id: String::from("718005"), token: sample_token(86400) };
    let entries = storage_entries(&data);
    assert_eq!(
        entries,
        vec![
            (String::from("access_token"), String::from("access-abc")),
            (String::from("refresh_token"), String::from("refresh-xyz")),
            (String::from("token_expires_at"), String::from("86400")),
            (String::from("athlete_id"), String::from("718005")),
        ]
    );
    let resumed = auth_data_from_entries(
        Some(entries[0].1.clone()),
        Some(entries[1].1.clone()),
        Some(entries[2].1.clone()),
        Some(entries[3].1.clone()),
    )
    .unwrap();
    assert_eq!(resumed.athlete_id, data.athlete_id);
    assert_eq!(resumed.token, data.token);
}

#[test]
fn resume_needs_every_entry() {
    assert!(auth_data_from_entries(
        None,
        Some(String::from("r")),
        Some(String::from("1")),
        Some(String::from("7"))
    )
    .is_none());
    assert!(auth_data_from_entries(
        Some(String::from("a")),
        Some(String::from("r")),
        Some(String::from("not-a-number")),
        Some(String::from("7"))
    )
    .is_none());
}

#[test]
fn routes_redirect_to_login_without_a_session() {
    let none: Option<AuthData> = None;
    let some = signed_in_state().data;
    assert_eq!(switch(Route::Login, &none), Screen::LoginForm);
    assert_eq!(switch(Route::Login, &some), Screen::LoginForm);
    assert_eq!(switch(Route::Home, &none), Screen::RedirectToLogin);
    assert_eq!(switch(Route::Home, &some), Screen::HomeView);
    assert_eq!(switch(Route::Results, &none), Screen::RedirectToLogin);
    assert_eq!(switch(Route::Results, &some), Screen::ResultsView);
    assert_eq!(switch(Route::NotFound, &some), Screen::NotFoundView);
}
