//! The cookie session: the check in front of the protected routes, and the
//! login handshake that issues the session cookie.
//!
//! Credentials and the session token are compared in plain text against the
//! configured values, and the token never changes while the server runs.

use vstd::prelude::*;

verus! {

/// Name of the cookie that carries the session token.
pub const SESSION_COOKIE: &'static str = "authorization_token";

/// The site's single account and its session token, fixed at start-up.
#[derive(Clone, Debug)]
pub struct SessionConfig {
    pub username: String,
    pub password: String,
    pub authz_token: String,
}

/// Where a request is sent on.
#[derive(Clone, Copy, Debug, PartialEq, Eq, Structural)]
pub enum Route {
    /// The dashboard, `/`.
    Dashboard,
    /// The login page, `/login`.
    LoginPage,
}

/// The path of a route.
pub open spec fn route_path(r: Route) -> Seq<char> {
    match r {
        Route::Dashboard => seq!['/'],
        Route::LoginPage => seq!['/', 'l', 'o', 'g', 'i', 'n'],
    }
}

impl Route {
    /// The path of this route.
    pub fn path(&self) -> (r: &'static str)
        ensures
            r@ == route_path(*self),
    {
        match self {
            Route::Dashboard => {
                proof {
                    reveal_strlit("/");
                }
                "/"
            },
            Route::LoginPage => {
                proof {
                    reveal_strlit("/login");
                }
                "/login"
            },
        }
    }
}

/// What the session check does with a request to a protected route.
#[derive(Clone, Copy, Debug, PartialEq, Eq, Structural)]
pub enum GateDecision {
    /// The request goes on to its handler unchanged.
    Admit,
    /// The request is answered with a redirect to the login page.
    RedirectToLogin,
}

/// The request's session cookie holds exactly the configured token.
pub open spec fn holds_token(cookie: Option<String>, config: SessionConfig) -> bool {
    match cookie {
        Some(c) => c@ == config.authz_token@,
        None => false,
    }
}

/// Whether the request's session cookie holds the configured token.
pub fn has_valid_session(cookie: &Option<String>, config: &SessionConfig) -> (r: bool)
    ensures
        r == holds_token(*cookie, *config),
{
    match cookie {
        Some(c) => *c == config.authz_token,
        None => false,
    }
}

/// The session check: a request is admitted exactly when its session cookie holds the
/// configured token; a missing or different cookie goes to the login page.
pub fn authorize(cookie: &Option<String>, config: &SessionConfig) -> (r: GateDecision)
    ensures
        r == GateDecision::Admit <==> holds_token(*cookie, *config),
        r == GateDecision::RedirectToLogin <==> !holds_token(*cookie, *config),
{
    if has_valid_session(cookie, config) {
        GateDecision::Admit
    } else {
        GateDecision::RedirectToLogin
    }
}

/// The session cookie that login issues.
#[derive(Clone, Debug)]
pub struct SessionCookie {
    pub name: String,
    pub value: String,
    /// The cookie applies below this path.
    pub path: String,
    /// Sent over secure connections only.
    pub secure: bool,
    /// Hidden from scripts in the page.
    pub http_only: bool,
    /// Kept without an expiry of its own.
    pub permanent: bool,
}

/// `c` is the session cookie for the configured token: named for the session,
/// holding the token, for the whole site, secure, HTTP-only and permanent.
pub open spec fn is_session_cookie(c: SessionCookie, config: SessionConfig) -> bool {
    &&& c.name@ == SESSION_COOKIE@
    &&& c.value@ == config.authz_token@
    &&& c.path@ == route_path(Route::Dashboard)
    &&& c.secure
    &&& c.http_only
    &&& c.permanent
}

/// The session cookie for the configured token.
pub fn issue_cookie(config: &SessionConfig) -> (r: SessionCookie)
    ensures
        is_session_cookie(r, *config),
{
    SessionCookie {
        name: SESSION_COOKIE.to_owned(),
        value: config.authz_token.clone(),
        path: Route::Dashboard.path().to_owned(),
        secure: true,
        http_only: true,
        permanent: true,
    }
}

/// The answer to a login attempt: a cookie to set, if any, and where to go.
#[derive(Clone, Debug)]
pub struct LoginOutcome {
    pub set_cookie: Option<SessionCookie>,
    pub redirect: Route,
}

/// The submitted username and password are exactly the configured ones.
pub open spec fn credentials_match(username: String, password: String, config: SessionConfig) -> bool {
    username@ == config.username@ && password@ == config.password@
}

/// A login attempt. A request that already holds a valid session goes to the
/// dashboard and nothing is set, whatever was submitted. Otherwise the
/// submitted username and password must equal the configured ones: then the
/// session cookie is set and the request goes to the dashboard; else nothing
/// is set and the request goes back to the login page.
pub fn login(
    cookie: &Option<String>,
    username: &String,
    password: &String,
    config: &SessionConfig,
) -> (r: LoginOutcome)
    ensures
        holds_token(*cookie, *config) ==> r.set_cookie is None && r.redirect == Route::Dashboard,
        !holds_token(*cookie, *config) && credentials_match(*username, *password, *config) ==> (
        r.set_cookie matches Some(c) && is_session_cookie(c, *config) && r.redirect
            == Route::Dashboard),
        !holds_token(*cookie, *config) && !credentials_match(*username, *password, *config) ==> (
        r.set_cookie is None && r.redirect == Route::LoginPage),
{
    if has_valid_session(cookie, config) {
        return LoginOutcome { set_cookie: None, redirect: Route::Dashboard };
    }
    if *username != config.username || *password != config.password {
        return LoginOutcome { set_cookie: None, redirect: Route::LoginPage };
    }
    LoginOutcome { set_cookie: Some(issue_cookie(config)), redirect: Route::Dashboard }
}

} // verus!
