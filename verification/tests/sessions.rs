use bloglib::auth::forms::LoginForm;
use bloglib::auth::models::{
    catcher_location, AnonymousUser, AuthenticatedUser, GuardOutcome, SessionCookie, User,
    ALREADY_SIGNED_IN, NOT_SIGNED_IN,
};
use bloglib::auth::{authenticate, decide_login, verify_password, LoginDecision};

fn user(id: i32, password: &str) -> User {
    User {
        id,
        first_name: "Ada".to_string(),
        last_name: "Lovelace".to_string(),
        email: "ada@example.com".to_string(),
        password: password.to_string(),
    }
}

fn blank(u: &User) -> bool {
    u.id == -1 && u.first_name.is_empty() && u.last_name.is_empty() && u.email.is_empty()
        && u.password.is_empty()
}

#[test]
fn user_guard_gives_the_cookie_user_or_the_anonymous_user() {
    let u = User::from_session(SessionCookie::Holds(user(3, "h")));
    assert_eq!(u.id, 3);
    assert_eq!(u.first_name, "Ada");
    assert!(blank(&User::from_session(SessionCookie::Missing)));
    assert!(blank(&User::from_session(SessionCookie::Unreadable)));
}

#[test]
fn authenticated_guard() {
    match AuthenticatedUser::from_session(SessionCookie::Holds(user(3, "h"))) {
        GuardOutcome::Success(a) => assert_eq!(a.0.id, 3),
        GuardOutcome::Failure(_) => panic!("signed-in visitor refused"),
    }
    for c in [SessionCookie::Missing, SessionCookie::Unreadable] {
        match AuthenticatedUser::from_session(c) {
            GuardOutcome::Failure(s) => assert_eq!(s, 600),
            GuardOutcome::Success(_) => panic!("anonymous visitor let through"),
        }
    }
}

#[test]
fn anonymous_guard() {
    match AnonymousUser::from_session(SessionCookie::Holds(user(3, "h"))) {
        GuardOutcome::Failure(s) => assert_eq!(s, 601),
        GuardOutcome::Success(_) => panic!("signed-in visitor let through"),
    }
    for c in [SessionCookie::Missing, SessionCookie::Unreadable] {
        match AnonymousUser::from_session(c) {
            GuardOutcome::Success(a) => assert!(blank(&a.0)),
            GuardOutcome::Failure(_) => panic!("anonymous visitor refused"),
        }
    }
}

#[test]
fn exactly_one_guard_lets_each_request_through() {
    for make in [0, 1, 2] {
        let cookie = || match make {
            0 => SessionCookie::Missing,
            1 => SessionCookie::Unreadable,
            _ => SessionCookie::Holds(user(9, "h")),
        };
        let a = matches!(AuthenticatedUser::from_session(cookie()), GuardOutcome::Success(_));
        let n = matches!(AnonymousUser::from_session(cookie()), GuardOutcome::Success(_));
        assert!(a != n);
    }
}

#[test]
fn failed_guards_are_redirected() {
    assert_eq!(catcher_location(NOT_SIGNED_IN), Some("/auth/login"));
    assert_eq!(catcher_location(ALREADY_SIGNED_IN), Some("/"));
    assert_eq!(catcher_location(404), None);
    assert_eq!(NOT_SIGNED_IN, 600);
    assert_eq!(ALREADY_SIGNED_IN, 601);
}

#[test]
fn public_fields_hide_the_password_and_mark_anonymous_users() {
    let p = user(5, "hash").public_fields();
    assert_eq!(p.id, 5);
    assert_eq!(p.email, "ada@example.com");
    assert!(!p.is_anonymous);
    assert!(User::anonymous().public_fields().is_anonymous);
    assert!(User::anonymous().is_anonymous());
}

#[test]
fn duplicate_copies_every_field() {
    let u = user(5, "hash");
    let d = u.duplicate();
    assert_eq!((d.id, d.first_name, d.last_name, d.email, d.password),
        (5, "Ada".to_string(), "Lovelace".to_string(), "ada@example.com".to_string(), "hash".to_string()));
}

fn form(password: &str) -> LoginForm {
    LoginForm { email: "ada@example.com".to_string(), password: password.to_string() }
}

fn is_invalid_credentials(d: &LoginDecision) -> bool {
    match d {
        LoginDecision::Refused(f) => f.location == "/auth/login" && f.message == "Invalid credentials",
        _ => false,
    }
}

#[test]
fn signed_in_visitor_is_sent_on_unchecked() {
    let d = authenticate(true, &form("anything"), &vec![]);
    assert!(matches!(d, LoginDecision::AlreadySignedIn));
}

#[test]
fn unknown_email_is_refused() {
    let d = authenticate(false, &form("secret"), &vec![]);
    assert!(is_invalid_credentials(&d));
}

#[test]
fn right_password_opens_a_session_for_the_first_user() {
    let hash = bcrypt::hash("secret", 4).unwrap();
    let d = authenticate(false, &form("secret"), &vec![user(11, &hash), user(12, &hash)]);
    match d {
        LoginDecision::StartSession(u) => assert_eq!(u.id, 11),
        other => panic!("unexpected {:?}", other),
    }
}

#[test]
fn wrong_password_is_refused() {
    let hash = bcrypt::hash("secret", 4).unwrap();
    let d = authenticate(false, &form("guess"), &vec![user(11, &hash)]);
    assert!(is_invalid_credentials(&d));
}

#[test]
fn unreadable_hash_is_reported() {
    let d = authenticate(false, &form("secret"), &vec![user(11, "not a hash")]);
    assert!(matches!(d, LoginDecision::BrokenPasswordHash));
}

#[test]
fn verify_password_answers() {
    let hash = bcrypt::hash("secret", 4).unwrap();
    assert!(verify_password("secret", &hash).unwrap());
    assert!(!verify_password("Secret", &hash).unwrap());
    assert!(verify_password("secret", "short").is_err());
}

#[test]
fn decide_login_follows_the_check() {
    let users = vec![user(4, "h")];
    assert!(matches!(decide_login(false, &users, Some(true)), LoginDecision::StartSession(ref u) if u.id == 4));
    assert!(is_invalid_credentials(&decide_login(false, &users, Some(false))));
    assert!(matches!(decide_login(false, &users, None), LoginDecision::BrokenPasswordHash));
    assert!(matches!(decide_login(true, &users, Some(true)), LoginDecision::AlreadySignedIn));
    assert!(is_invalid_credentials(&decide_login(false, &vec![], Some(true))));
}
