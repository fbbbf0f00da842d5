//! Users, and the request guards that read the session cookie.

use vstd::prelude::*;

verus! {

/// A user as stored, password hash included.
#[derive(Debug)]
pub struct User {
    pub id: i32,
    pub first_name: String,
    pub last_name: String,
    pub email: String,
    pub password: String,
}

/// The columns of a user to be inserted.
#[derive(Debug)]
pub struct NewUser<'a> {
    pub first_name: &'a str,
    pub last_name: &'a str,
    pub email: &'a str,
}

/// The columns of a user to be changed.
#[derive(Debug)]
pub struct UpdateUser<'a> {
    pub first_name: &'a str,
    pub last_name: &'a str,
    pub email: &'a str,
}

/// A visitor who holds a valid session.
#[derive(Debug)]
pub struct AuthenticatedUser(pub User);

/// A visitor who holds no valid session.
#[derive(Debug)]
pub struct AnonymousUser(pub User);

/// What a user shows of itself to pages and to the session cookie: no
/// password, and whether it stands for an anonymous visitor.
#[derive(Debug)]
pub struct PublicUser {
    pub id: i32,
    pub first_name: String,
    pub last_name: String,
    pub email: String,
    pub is_anonymous: bool,
}

/// The id that marks the user standing for an anonymous visitor.
pub const ANONYMOUS_ID: i32 = -1;

/// The status a request fails with when it needs a session and has none.
pub const NOT_SIGNED_IN: u16 = 600;

/// The status a request fails with when it must come from an anonymous
/// visitor and holds a session.
pub const ALREADY_SIGNED_IN: u16 = 601;

/// What the request's session cookie holds.
#[derive(Debug)]
pub enum SessionCookie {
    /// There is no session cookie.
    Missing,
    /// There is one, and its text is not a user.
    Unreadable,
    /// There is one, and it holds this user.
    Holds(User),
}

/// How a request guard ends: the value it gives the handler, or the status
/// that the request fails with.
#[derive(Debug)]
pub enum GuardOutcome<T> {
    Success(T),
    Failure(u16),
}

/// Whether `u` is the user that stands for an anonymous visitor: id -1 and
/// every text field empty.
pub open spec fn is_blank_anonymous(u: User) -> bool {
    &&& u.id == ANONYMOUS_ID
    &&& u.first_name@ == Seq::<char>::empty()
    &&& u.last_name@ == Seq::<char>::empty()
    &&& u.email@ == Seq::<char>::empty()
    &&& u.password@ == Seq::<char>::empty()
}

/// The user that the plain `User` guard gives for a cookie.
pub open spec fn user_guard_gives(cookie: SessionCookie, u: User) -> bool {
    match cookie {
        SessionCookie::Holds(v) => u == v,
        _ => is_blank_anonymous(u),
    }
}

/// How the `AuthenticatedUser` guard ends for a cookie: with the user the
/// cookie holds, else failing with `NOT_SIGNED_IN`.
pub open spec fn authenticated_guard_gives(cookie: SessionCookie, o: GuardOutcome<AuthenticatedUser>) -> bool {
    match cookie {
        SessionCookie::Holds(v) => o == GuardOutcome::Success(AuthenticatedUser(v)),
        _ => o == GuardOutcome::<AuthenticatedUser>::Failure(NOT_SIGNED_IN),
    }
}

/// How the `AnonymousUser` guard ends for a cookie: failing with
/// `ALREADY_SIGNED_IN` when the cookie holds a user, else with the blank
/// anonymous user.
pub open spec fn anonymous_guard_gives(cookie: SessionCookie, o: GuardOutcome<AnonymousUser>) -> bool {
    match cookie {
        SessionCookie::Holds(_) => o == GuardOutcome::<AnonymousUser>::Failure(ALREADY_SIGNED_IN),
        _ => o matches GuardOutcome::Success(a) && is_blank_anonymous(a.0),
    }
}

/// Where a failed request is sent: the sign-in page for `NOT_SIGNED_IN`,
/// the front page for `ALREADY_SIGNED_IN`, nowhere for any other status.
pub open spec fn catcher_target(status: u16) -> Option<Seq<char>> {
    if status == NOT_SIGNED_IN {
        Some("/auth/login"@)
    } else if status == ALREADY_SIGNED_IN {
        Some("/"@)
    } else {
        None
    }
}

/// The location a failed request is redirected to, as `catcher_target` says.
pub fn catcher_location(status: u16) -> (r: Option<&'static str>)
    ensures
        match r {
            Some(s) => catcher_target(status) == Some(s@),
            None => catcher_target(status) is None,
        },
{
    if status == NOT_SIGNED_IN {
        Some("/auth/login")
    } else if status == ALREADY_SIGNED_IN {
        Some("/")
    } else {
        None
    }
}

impl User {
    /// The user that stands for an anonymous visitor.
    pub fn anonymous() -> (u: User)
        ensures
            is_blank_anonymous(u),
    {
        User {
            id: ANONYMOUS_ID,
            first_name: String::new(),
            last_name: String::new(),
            email: String::new(),
            password: String::new(),
        }
    }

    /// A copy of this user.
    pub fn duplicate(&self) -> (u: User)
        ensures
            u == *self,
    {
        User {
            id: self.id,
            first_name: self.first_name.clone(),
            last_name: self.last_name.clone(),
            email: self.email.clone(),
            password: self.password.clone(),
        }
    }

    /// Whether this user stands for an anonymous visitor (its id is -1).
    pub fn is_anonymous(&self) -> (b: bool)
        ensures
            b == (self.id == ANONYMOUS_ID),
    {
        self.id == ANONYMOUS_ID
    }

    /// The fields that pages and the session cookie show of this user: the
    /// same id, names and email, no password, and whether the id is -1.
    pub fn public_fields(&self) -> (p: PublicUser)
        ensures
            p.id == self.id,
            p.first_name@ == self.first_name@,
            p.last_name@ == self.last_name@,
            p.email@ == self.email@,
            p.is_anonymous == (self.id == ANONYMOUS_ID),
    {
        PublicUser {
            id: self.id,
            first_name: self.first_name.clone(),
            last_name: self.last_name.clone(),
            email: self.email.clone(),
            is_anonymous: self.is_anonymous(),
        }
    }

    /// The `User` guard: the user the session cookie holds, else the
    /// anonymous user. It never fails.
    pub fn from_session(cookie: SessionCookie) -> (u: User)
        ensures
            user_guard_gives(cookie, u),
            cookie matches SessionCookie::Holds(v) ==> u == v,
            !(cookie is Holds) ==> u.id == -1 && u.first_name@.len() == 0 && u.last_name@.len() == 0
                && u.email@.len() == 0 && u.password@.len() == 0,
    {
        match cookie {
            SessionCookie::Holds(user) => user,
            _ => User::anonymous(),
        }
    }
}

impl AuthenticatedUser {
    /// The `AuthenticatedUser` guard: the user the session cookie holds,
    /// else failing with `NOT_SIGNED_IN`.
    pub fn from_session(cookie: SessionCookie) -> (o: GuardOutcome<AuthenticatedUser>)
        ensures
            authenticated_guard_gives(cookie, o),
            cookie matches SessionCookie::Holds(v) ==> o == GuardOutcome::Success(AuthenticatedUser(v)),
            !(cookie is Holds) ==> o == GuardOutcome::<AuthenticatedUser>::Failure(600),
    {
        match cookie {
            SessionCookie::Holds(user) => GuardOutcome::Success(AuthenticatedUser(user)),
            _ => GuardOutcome::Failure(NOT_SIGNED_IN),
        }
    }
}

impl AnonymousUser {
    /// The `AnonymousUser` guard: failing with `ALREADY_SIGNED_IN` when the
    /// session cookie holds a user, else the anonymous user.
    pub fn from_session(cookie: SessionCookie) -> (o: GuardOutcome<AnonymousUser>)
        ensures
            anonymous_guard_gives(cookie, o),
            cookie is Holds ==> o == GuardOutcome::<AnonymousUser>::Failure(601),
            !(cookie is Holds) ==> (o matches GuardOutcome::Success(a) && a.0.id == -1
                && a.0.first_name@.len() == 0 && a.0.last_name@.len() == 0
                && a.0.email@.len() == 0 && a.0.password@.len() == 0),
    {
        match cookie {
            SessionCookie::Holds(_) => GuardOutcome::Failure(ALREADY_SIGNED_IN),
            _ => GuardOutcome::Success(AnonymousUser(User::anonymous())),
        }
    }
}


/// The guards hand the handler the signed-in user exactly as the session
/// cookie holds it: for a cookie that holds user `v`, the `User` guard gives
/// `v` itself and the `AuthenticatedUser` guard succeeds with `v`, every
/// field kept; for any other cookie the `User` guard gives the user with id
/// -1 and empty names, email and password, and the `AuthenticatedUser` guard
/// fails with status 600.
pub proof fn lemma_guards_keep_the_session_user(
    cookie: SessionCookie,
    u: User,
    a: GuardOutcome<AuthenticatedUser>,
    n: GuardOutcome<AnonymousUser>,
)
    requires
        user_guard_gives(cookie, u),
        authenticated_guard_gives(cookie, a),
        anonymous_guard_gives(cookie, n),
    ensures
        cookie matches SessionCookie::Holds(v) ==> {
            &&& u == v
            &&& u.id == v.id
            &&& u.first_name == v.first_name
            &&& u.last_name == v.last_name
            &&& u.email == v.email
            &&& u.password == v.password
            &&& a == GuardOutcome::Success(AuthenticatedUser(v))
            &&& n == GuardOutcome::<AnonymousUser>::Failure(601)
        },
        !(cookie is Holds) ==> {
            &&& u.id == -1
            &&& u.first_name@.len() == 0
            &&& u.last_name@.len() == 0
            &&& u.email@.len() == 0
            &&& u.password@.len() == 0
            &&& a == GuardOutcome::<AuthenticatedUser>::Failure(600)
            &&& n matches GuardOutcome::Success(y) && y.0.id == -1
        },
{
}

/// Every request is either signed in or anonymous. For each session cookie,
/// exactly one of the `AuthenticatedUser` and `AnonymousUser` guards lets
/// the request through; the user that guard gives agrees with what the
/// plain `User` guard gives; and the guard that fails sends the request on:
/// to the sign-in page when a session was needed, to the front page when a
/// session was in the way.
pub proof fn lemma_guards_partition(
    cookie: SessionCookie,
    u: User,
    a: GuardOutcome<AuthenticatedUser>,
    n: GuardOutcome<AnonymousUser>,
)
    requires
        user_guard_gives(cookie, u),
        authenticated_guard_gives(cookie, a),
        anonymous_guard_gives(cookie, n),
    ensures
        (a is Success) != (n is Success),
        a matches GuardOutcome::Success(x) ==> x.0 == u,
        n matches GuardOutcome::Success(y) ==> is_blank_anonymous(y.0) && is_blank_anonymous(u),
        a matches GuardOutcome::Failure(s) ==> catcher_target(s) == Some("/auth/login"@),
        n matches GuardOutcome::Failure(s) ==> catcher_target(s) == Some("/"@),
{
}

} // verus!
