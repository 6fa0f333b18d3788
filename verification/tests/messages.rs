use microservice::messages::{extractValidationErrorMessages, str_equal, SERVER_ERROR};
use std::borrow::Cow;
use validator::{ValidationError, ValidationErrors};

#[test]
fn codes_are_turned_into_messages() {
    let mut errors = ValidationErrors::new();
    errors.add("email", ValidationError::new("email"));
    assert_eq!(extractValidationErrorMessages(errors), "Email is invalid");

    let mut errors = ValidationErrors::new();
    errors.add("username", ValidationError::new("length"));
    assert_eq!(extractValidationErrorMessages(errors), "Password should be between 6 - 50 characters");

    let mut errors = ValidationErrors::new();
    errors.add("username", ValidationError::new("custom_code"));
    assert_eq!(extractValidationErrorMessages(errors), "custom_code");
}

#[test]
fn last_error_of_a_field_gives_its_message() {
    let mut errors = ValidationErrors::new();
    errors.add("username", ValidationError::new("length"));
    errors.add("username", ValidationError::new("email"));
    assert_eq!(extractValidationErrorMessages(errors), "Email is invalid");
}

#[test]
fn owned_codes_are_skipped() {
    let mut owned = ValidationError::new("ignored");
    owned.code = Cow::Owned("owned".to_string());

    let mut errors = ValidationErrors::new();
    errors.add("username", owned.clone());
    assert_eq!(extractValidationErrorMessages(errors), "");

    let mut errors = ValidationErrors::new();
    errors.add("username", ValidationError::new("length"));
    errors.add("username", owned);
    assert_eq!(extractValidationErrorMessages(errors), "Password should be between 6 - 50 characters");
}

#[test]
fn fields_are_joined() {
    let mut errors = ValidationErrors::new();
    errors.add("email", ValidationError::new("email"));
    errors.add("password", ValidationError::new("length"));
    let message = extractValidationErrorMessages(errors);
    assert!(
        message == "Email is invalid | Password should be between 6 - 50 characters"
            || message == "Password should be between 6 - 50 characters | Email is invalid"
    );
}

#[test]
fn no_errors_give_an_empty_message() {
    assert_eq!(extractValidationErrorMessages(ValidationErrors::new()), "");
}

#[test]
fn string_equality() {
    assert!(str_equal("abc", "abc"));
    assert!(!str_equal("abc", "abd"));
    assert!(!str_equal("abc", "ab"));
    assert!(str_equal("", ""));
    assert!(str_equal("é", "é"));
    assert_eq!(SERVER_ERROR, "Server error occurred");
}
