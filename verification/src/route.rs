//! Routing: which screen a route shows, given the session state.
//!
//! The one rule of interest: every route but the login form requires a
//! signed-in session, and without one the user is redirected to it.

use vstd::prelude::*;

use crate::state::AuthData;

verus! {

/// The application's routes.
#[derive(Clone, Copy, Debug, PartialEq, Eq, Structural)]
pub enum Route {
    Home,
    Results,
    Login,
    NotFound,
}

/// What a route resolves to.
#[derive(Clone, Copy, Debug, PartialEq, Eq, Structural)]
pub enum Screen {
    LoginForm,
    RedirectToLogin,
    HomeView,
    ResultsView,
    NotFoundView,
}

/// The screen for `route`: the login form is always reachable; everything
/// else redirects to it unless a session is signed in.
pub open spec fn switch_spec(route: Route, authenticated: bool) -> Screen {
    if route is Login {
        Screen::LoginForm
    } else if !authenticated {
        Screen::RedirectToLogin
    } else {
        match route {
            Route::Home => Screen::HomeView,
            Route::Results => Screen::ResultsView,
            _ => Screen::NotFoundView,
        }
    }
}

/// Resolves `route` against the session, as `switch_spec` describes.
pub fn switch(route: Route, auth_data: &Option<AuthData>) -> (s: Screen)
    ensures
        s == switch_spec(route, auth_data is Some),
{
    match (route, auth_data) {
        (Route::Login, _) => Screen::LoginForm,
        (_, None) => Screen::RedirectToLogin,
        (Route::Home, _) => Screen::HomeView,
        (Route::Results, _) => Screen::ResultsView,
        (Route::NotFound, _) => Screen::NotFoundView,
    }
}

} // verus!
