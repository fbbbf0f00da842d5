//! The forms of the sign-in and registration pages.

use vstd::prelude::*;

verus! {

/// What the sign-in form submits.
#[derive(Debug)]
pub struct LoginForm {
    pub email: String,
    pub password: String,
}

/// A registration field that was filled in: its percent-decoded text,
/// never empty.
#[derive(Debug)]
pub struct UserField(pub String);

/// Why a registration form was turned down.
#[derive(Debug)]
pub struct FieldPresenceError<'a> {
    pub msg: &'a str,
}

/// What the registration form submits; a field that was left empty or could
/// not be decoded is `None`.
#[derive(Debug)]
pub struct RegisterForm {
    pub id: Option<i32>,
    pub first_name: Option<UserField>,
    pub last_name: Option<UserField>,
    pub email: Option<UserField>,
    pub password: Option<UserField>,
    pub password_confirm: Option<UserField>,
}

/// What percent-decoding the raw text of a form value gives: the decoded
/// text, or `None` where the decoded bytes are not UTF-8.
pub uninterp spec fn percent_decoded(raw: Seq<char>) -> Option<Seq<char>>;

/// Percent-decodes `raw` with rocket's `RawStr::percent_decode`.
/// Trusted: the result is `percent_decoded` of the input, `None` exactly
/// where rocket reports a UTF-8 error.
#[verifier::external_body]
fn rocket_percent_decode(raw: &str) -> (r: Option<String>)
    ensures
        match r {
            Some(s) => percent_decoded(raw@) == Some(s@),
            None => percent_decoded(raw@) is None,
        },
{
    match rocket::http::RawStr::new(raw).percent_decode() {
        Ok(decoded) => Some(decoded.into_owned()),
        Err(_) => None,
    }
}

/// The field that a decoded form value gives: `decoded` must hold text
/// that is not empty, else the raw value is handed back as the error.
pub open spec fn spec_field_from_decoded(raw: Seq<char>, decoded: Option<Seq<char>>) -> Result<Seq<char>, Seq<char>> {
    match decoded {
        Some(s) => if s.len() == 0 { Err(raw) } else { Ok(s) },
        None => Err(raw),
    }
}

impl UserField {
    /// Turns the outcome of decoding `form_value` into a field: the decoded
    /// text when there is some, else `form_value` itself as the error.
    pub fn from_decoded<'v>(form_value: &'v str, decoded: Option<String>) -> (r: Result<UserField, &'v str>)
        ensures
            match decoded {
                Some(s) => if s@.len() == 0 {
                    r == Err::<UserField, &str>(form_value)
                } else {
                    r matches Ok(f) && f.0@ == s@
                },
                None => r == Err::<UserField, &str>(form_value),
            },
    {
        match decoded {
            Some(val) => {
                if val.as_str().is_empty() {
                    Err(form_value)
                } else {
                    Ok(UserField(val))
                }
            },
            None => Err(form_value),
        }
    }

    /// Reads a registration field from the raw text of a form value: it is
    /// percent-decoded, and turned down (the raw value as the error) when
    /// the decoded bytes are not UTF-8 or the decoded text is empty.
    pub fn from_form_value<'v>(form_value: &'v str) -> (r: Result<UserField, &'v str>)
        ensures
            match spec_field_from_decoded(form_value@, percent_decoded(form_value@)) {
                Ok(s) => r matches Ok(f) && f.0@ == s,
                Err(_) => r == Err::<UserField, &str>(form_value),
            },
            match percent_decoded(form_value@) {
                Some(s) => if s.len() > 0 {
                    r matches Ok(f) && f.0@ == s
                } else {
                    r == Err::<UserField, &str>(form_value)
                },
                None => r == Err::<UserField, &str>(form_value),
            },
    {
        let decoded = rocket_percent_decode(form_value);
        UserField::from_decoded(form_value, decoded)
    }
}

/// A form value is read as the whole of its decoded text: when it decodes
/// to some non-empty text, the field holds exactly that text, whatever its
/// length; when it decodes to nothing or fails to decode, it is turned down
/// with the raw value.
pub proof fn lemma_field_is_whole_decoded_text(raw: Seq<char>, decoded: Option<Seq<char>>)
    ensures
        match decoded {
            Some(s) => if s.len() > 0 {
                spec_field_from_decoded(raw, decoded) == Ok::<Seq<char>, Seq<char>>(s)
            } else {
                spec_field_from_decoded(raw, decoded) == Err::<Seq<char>, Seq<char>>(raw)
            },
            None => spec_field_from_decoded(raw, decoded) == Err::<Seq<char>, Seq<char>>(raw),
        },
{
}

/// A registration form is complete exactly when its first name, last name,
/// email, password and password confirmation are all filled in; the id does
/// not count.
pub proof fn lemma_complete_form_has_every_field(form: RegisterForm)
    ensures
        form.all_fields_present() <==> (form.first_name is Some && form.last_name is Some
            && form.email is Some && form.password is Some && form.password_confirm is Some),
{
}

impl RegisterForm {
    /// Whether every field that a registration needs was filled in.
    pub open spec fn all_fields_present(&self) -> bool {
        &&& self.first_name is Some
        &&& self.last_name is Some
        &&& self.email is Some
        &&& self.password is Some
        &&& self.password_confirm is Some
    }

    /// Hands the form back when the first name, last name, email, password
    /// and its confirmation are all filled in; else turns it down with
    /// "All fields must be filled out". The id is not looked at.
    pub fn validate_fields_presence(&self) -> (r: Result<&Self, FieldPresenceError>)
        ensures
            r is Ok <==> self.all_fields_present(),
            r is Ok <==> (self.first_name is Some && self.last_name is Some && self.email is Some
                && self.password is Some && self.password_confirm is Some),
            r matches Ok(s) ==> s == self,
            r matches Err(e) ==> e.msg@ == "All fields must be filled out"@,
    {
        if self.first_name.is_some() && self.last_name.is_some() && self.email.is_some()
            && self.password.is_some() && self.password_confirm.is_some() {
            return Ok(self);
        }
        Err(FieldPresenceError { msg: "All fields must be filled out" })
    }
}

} // verus!
