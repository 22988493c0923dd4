use habit_dash::session::{
    authorize, has_valid_session, issue_cookie, login, GateDecision, Route, SessionConfig,
    SESSION_COOKIE,
};

fn config() -> SessionConfig {
    SessionConfig {
        username: "alice".to_string(),
        password: "hunter2".to_string(),
        authz_token: "tok-123".to_string(),
    }
}

fn cookie(v: &str) -> Option<String> {
    Some(v.to_string())
}

#[test]
fn authorize_admits_exact_token_only() {
    let c = config();
    assert_eq!(authorize(&cookie("tok-123"), &c), GateDecision::Admit);
    assert_eq!(authorize(&None, &c), GateDecision::RedirectToLogin);
    assert_eq!(authorize(&cookie(""), &c), GateDecision::RedirectToLogin);
    assert_eq!(authorize(&cookie("tok-12"), &c), GateDecision::RedirectToLogin);
    assert_eq!(authorize(&cookie("tok-1234"), &c), GateDecision::RedirectToLogin);
    assert_eq!(authorize(&cookie("TOK-123"), &c), GateDecision::RedirectToLogin);
    assert_eq!(authorize(&cookie(" tok-123"), &c), GateDecision::RedirectToLogin);
    assert!(has_valid_session(&cookie("tok-123"), &c));
    assert!(!has_valid_session(&None, &c));
}

#[test]
fn login_with_correct_credentials_sets_cookie() {
    let c = config();
    let out = login(&None, &"alice".to_string(), &"hunter2".to_string(), &c);
    assert_eq!(out.redirect, Route::Dashboard);
    assert_eq!(out.redirect.path(), "/");
    let set = out.set_cookie.expect("a session cookie");
    assert_eq!(set.name, "authorization_token");
    assert_eq!(set.value, "tok-123");
    assert_eq!(set.path, "/");
    assert!(set.secure);
    assert!(set.http_only);
    assert!(set.permanent);
    // The issued cookie passes the session check.
    assert_eq!(authorize(&Some(set.value.clone()), &c), GateDecision::Admit);
}

#[test]
fn login_with_wrong_credentials_goes_back_to_login() {
    let c = config();
    for (u, p) in [("alice", "wrong"), ("bob", "hunter2"), ("", ""), ("Alice", "hunter2"), ("alice", "hunter2 ")] {
        let out = login(&None, &u.to_string(), &p.to_string(), &c);
        assert!(out.set_cookie.is_none());
        assert_eq!(out.redirect, Route::LoginPage);
        assert_eq!(out.redirect.path(), "/login");
    }
    // A stale cookie does not help.
    let out = login(&cookie("old"), &"alice".to_string(), &"nope".to_string(), &c);
    assert!(out.set_cookie.is_none());
    assert_eq!(out.redirect, Route::LoginPage);
}

#[test]
fn login_with_stale_cookie_and_correct_credentials() {
    let c = config();
    let out = login(&cookie("old"), &"alice".to_string(), &"hunter2".to_string(), &c);
    assert_eq!(out.redirect, Route::Dashboard);
    assert_eq!(out.set_cookie.unwrap().value, "tok-123");
}

#[test]
fn login_with_valid_session_ignores_credentials() {
    let c = config();
    for (u, p) in [("alice", "hunter2"), ("mallory", "guess"), ("", "")] {
        let out = login(&cookie("tok-123"), &u.to_string(), &p.to_string(), &c);
        assert!(out.set_cookie.is_none());
        assert_eq!(out.redirect, Route::Dashboard);
    }
}

#[test]
fn issued_cookie_fields() {
    let set = issue_cookie(&config());
    assert_eq!(set.name, SESSION_COOKIE);
    assert_eq!(set.value, "tok-123");
    assert_eq!(set.path, "/");
    assert!(set.secure && set.http_only && set.permanent);
}
