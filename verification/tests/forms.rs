use bloglib::auth::forms::{RegisterForm, UserField};

fn field(s: &str) -> Option<UserField> {
    Some(UserField(s.to_string()))
}

fn full_form() -> RegisterForm {
    RegisterForm {
        id: None,
        first_name: field("Ada"),
        last_name: field("Lovelace"),
        email: field("ada@example.com"),
        password: field("secret"),
        password_confirm: field("secret"),
    }
}

#[test]
fn validate_accepts_a_complete_form_and_hands_it_back() {
    let form = full_form();
    let r = form.validate_fields_presence();
    assert!(std::ptr::eq(r.unwrap(), &form));
}

#[test]
fn validate_ignores_the_id() {
    let mut form = full_form();
    form.id = Some(7);
    assert!(form.validate_fields_presence().is_ok());
}

#[test]
fn validate_turns_down_each_missing_field() {
    for missing in 0..5 {
        let mut form = full_form();
        match missing {
            0 => form.first_name = None,
            1 => form.last_name = None,
            2 => form.email = None,
            3 => form.password = None,
            _ => form.password_confirm = None,
        }
        let err = form.validate_fields_presence().unwrap_err();
        assert_eq!(err.msg, "All fields must be filled out");
    }
}

#[test]
fn form_value_is_percent_decoded() {
    let f = UserField::from_form_value("Hello%21").unwrap();
    assert_eq!(f.0, "Hello!");
    let f = UserField::from_form_value("a%20b").unwrap();
    assert_eq!(f.0, "a b");
}

#[test]
fn form_value_keeps_plus_signs() {
    let f = UserField::from_form_value("a+b").unwrap();
    assert_eq!(f.0, "a+b");
}

#[test]
fn empty_form_value_is_refused_with_the_raw_text() {
    assert_eq!(UserField::from_form_value("").unwrap_err(), "");
}

#[test]
fn undecodable_form_value_is_refused_with_the_raw_text() {
    assert_eq!(UserField::from_form_value("%FF").unwrap_err(), "%FF");
}

#[test]
fn decoded_value_that_is_empty_is_refused() {
    assert_eq!(UserField::from_decoded("x", Some(String::new())).unwrap_err(), "x");
    assert_eq!(UserField::from_decoded("x", None).unwrap_err(), "x");
    assert_eq!(UserField::from_decoded("x", Some("y".to_string())).unwrap().0, "y");
}
