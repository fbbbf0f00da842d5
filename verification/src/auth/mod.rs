//! Signing in and out, and telling signed-in visitors from anonymous ones.

pub mod forms;
pub mod models;

use vstd::prelude::*;

use crate::auth::forms::LoginForm;
use crate::auth::models::User;
use crate::flash::FlashRedirect;

verus! {

/// The error type of `bcrypt::verify`.
#[verifier::external_type_specification]
#[verifier::external_body]
pub struct ExBcryptError(bcrypt::BcryptError);

/// What `bcrypt::verify` answers for a password and a stored hash: whether
/// they match, or `None` where it reports an error (a hash it cannot read).
pub uninterp spec fn bcrypt_verify(password: Seq<char>, hash: Seq<char>) -> Option<bool>;

/// Calls `bcrypt::verify`. Trusted: the answer is `bcrypt_verify` of the
/// arguments, and a hash that is not 60 ASCII characters is an error (its
/// source rejects such a hash before anything else).
#[verifier::external_body]
fn bcrypt_verify_call(password: &str, hash: &str) -> (r: Result<bool, bcrypt::BcryptError>)
    ensures
        match r {
            Ok(b) => bcrypt_verify(password@, hash@) == Some(b),
            Err(_) => bcrypt_verify(password@, hash@) is None,
        },
        !(hash@.len() == 60 && vstd::string::is_ascii(hash)) ==> r is Err,
{
    bcrypt::verify(password, hash)
}

/// A stored password hash that bcrypt cannot read.
#[derive(Debug)]
pub struct MalformedPasswordHash;

/// Whether `password` matches the bcrypt `hash`; an error when the hash
/// cannot be read.
pub fn verify_password(password: &str, hash: &str) -> (r: Result<bool, MalformedPasswordHash>)
    ensures
        match r {
            Ok(b) => bcrypt_verify(password@, hash@) == Some(b),
            Err(_) => bcrypt_verify(password@, hash@) is None,
        },
        !(hash@.len() == 60 && vstd::string::is_ascii(hash)) ==> r is Err,
{
    match bcrypt_verify_call(password, hash) {
        Ok(b) => Ok(b),
        Err(_) => Err(MalformedPasswordHash),
    }
}

/// What to do with a submitted sign-in form.
#[derive(Debug)]
pub enum LoginDecision {
    /// The visitor already holds a session: send them to the front page.
    AlreadySignedIn,
    /// The password is right: open a session for this user and send them to
    /// the front page.
    StartSession(User),
    /// Send the visitor back with an error.
    Refused(FlashRedirect),
    /// The stored hash of the user cannot be read.
    BrokenPasswordHash,
}

/// Whether `f` sends the visitor back to the sign-in page with
/// "Invalid credentials".
pub open spec fn is_invalid_credentials(f: FlashRedirect) -> bool {
    f.location@ == "/auth/login"@ && f.message@ == "Invalid credentials"@
}

/// The decision for a sign-in form, given whether a session is already
/// open, the users found under the submitted email (the first one counts),
/// and whether the submitted password matches the first one's hash
/// (`None`: the hash cannot be read).
pub open spec fn login_decision_is(
    session_present: bool,
    found: Seq<User>,
    password_check: Option<bool>,
    d: LoginDecision,
) -> bool {
    if session_present {
        d is AlreadySignedIn
    } else if found.len() == 0 {
        d matches LoginDecision::Refused(f) && is_invalid_credentials(f)
    } else {
        match password_check {
            Some(true) => d == LoginDecision::StartSession(found[0]),
            Some(false) => d matches LoginDecision::Refused(f) && is_invalid_credentials(f),
            None => d is BrokenPasswordHash,
        }
    }
}

/// What checking the submitted password against the first user found gives.
pub open spec fn password_check_for(password: Seq<char>, found: Seq<User>) -> Option<bool> {
    if found.len() == 0 {
        None
    } else {
        bcrypt_verify(password, found[0].password@)
    }
}

fn invalid_credentials() -> (f: FlashRedirect)
    ensures
        is_invalid_credentials(f),
{
    FlashRedirect::error("/auth/login", "Invalid credentials")
}

/// Decides on a sign-in form once the password of the first user found has
/// been checked (`password_check`, looked at only when a user was found).
pub fn decide_login(session_present: bool, found_users: &Vec<User>, password_check: Option<bool>) -> (d: LoginDecision)
    ensures
        login_decision_is(session_present, found_users@, password_check, d),
{
    if session_present {
        return LoginDecision::AlreadySignedIn;
    }
    if found_users.len() == 0 {
        return LoginDecision::Refused(invalid_credentials());
    }
    match password_check {
        Some(true) => LoginDecision::StartSession(found_users[0].duplicate()),
        Some(false) => LoginDecision::Refused(invalid_credentials()),
        None => LoginDecision::BrokenPasswordHash,
    }
}

/// Signs a visitor in. A visitor who already holds a session is sent on
/// with nothing checked. Otherwise `found_users` are the users stored under
/// the submitted email: with none, or when bcrypt says the submitted
/// password does not match the first one's hash, the visitor is sent back
/// with "Invalid credentials"; when it matches, a session opens for that user.
pub fn authenticate(session_present: bool, form: &LoginForm, found_users: &Vec<User>) -> (d: LoginDecision)
    ensures
        login_decision_is(
            session_present,
            found_users@,
            password_check_for(form.password@, found_users@),
            d,
        ),
        session_present ==> d is AlreadySignedIn,
        !session_present && found_users@.len() > 0
            && bcrypt_verify(form.password@, found_users@[0].password@) == Some(true)
            ==> d == LoginDecision::StartSession(found_users@[0]),
        !session_present && found_users@.len() > 0
            && bcrypt_verify(form.password@, found_users@[0].password@) == Some(false)
            ==> (d matches LoginDecision::Refused(f)
                && f.location@ == "/auth/login"@ && f.message@ == "Invalid credentials"@),
        !session_present && found_users@.len() > 0
            && bcrypt_verify(form.password@, found_users@[0].password@) is None
            ==> d is BrokenPasswordHash,
        !session_present && found_users@.len() == 0
            ==> (d matches LoginDecision::Refused(f)
                && f.location@ == "/auth/login"@ && f.message@ == "Invalid credentials"@),
{
    if session_present || found_users.len() == 0 {
        return decide_login(session_present, found_users, None);
    }
    let check = match verify_password(form.password.as_str(), found_users[0].password.as_str()) {
        Ok(b) => Some(b),
        Err(_) => None,
    };
    decide_login(session_present, found_users, check)
}

/// Signing in follows bcrypt's answer for the first user found, however
/// many users were found: with no session open and at least one user, a
/// password that bcrypt accepts opens a session for exactly that user, one it
/// rejects sends the visitor back to the sign-in page with "Invalid
/// credentials", and an unreadable hash is reported; with no user found the
/// visitor is sent back the same way, and with a session open nothing is
/// checked.
pub proof fn lemma_sign_in_follows_bcrypt(
    session_present: bool,
    password: Seq<char>,
    found: Seq<User>,
    d: LoginDecision,
)
    requires
        login_decision_is(session_present, found, password_check_for(password, found), d),
    ensures
        session_present ==> d is AlreadySignedIn,
        !session_present && found.len() == 0 ==> (d matches LoginDecision::Refused(f)
            && f.location@ == "/auth/login"@ && f.message@ == "Invalid credentials"@),
        !session_present && found.len() > 0 && bcrypt_verify(password, found[0].password@) == Some(true)
            ==> d == LoginDecision::StartSession(found[0]),
        !session_present && found.len() > 0 && bcrypt_verify(password, found[0].password@) == Some(false)
            ==> (d matches LoginDecision::Refused(f)
                && f.location@ == "/auth/login"@ && f.message@ == "Invalid credentials"@),
        !session_present && found.len() > 0 && bcrypt_verify(password, found[0].password@) is None
            ==> d is BrokenPasswordHash,
{
}

/// A session only ever opens for the first user found, when no session was
/// open and bcrypt accepts the submitted password against that user's hash.
pub proof fn lemma_session_needs_matching_password(
    session_present: bool,
    password: Seq<char>,
    found: Seq<User>,
    d: LoginDecision,
)
    requires
        login_decision_is(session_present, found, password_check_for(password, found), d),
    ensures
        d matches LoginDecision::StartSession(u) ==> {
            &&& !session_present
            &&& found.len() > 0
            &&& u == found[0]
            &&& bcrypt_verify(password, u.password@) == Some(true)
        },
{
}

} // verus!
