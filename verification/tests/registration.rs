use microservice::domain::{usernameValidator, StartRegistrationRequest, Usecases};

const ONLY_ALLOWED: &str = "Only English alphabets, numbers and underscores are allowed in the username";
const NEEDS_LETTER: &str = "Username cannot contain only underscores and digits";
const LENGTH_MESSAGE: &str = "Password should be between 6 - 50 characters";

fn register(email: &str, username: &str, password: &str) -> Result<(), String> {
    let usecases = Usecases {};
    usecases.startRegistration(StartRegistrationRequest::new(email, username, password))
}

fn parts(message: &str) -> Vec<String> {
    let mut parts: Vec<String> = message.split(" | ").map(|p| p.to_string()).collect();
    parts.sort();
    parts
}

#[test]
fn username_with_letters_digits_and_underscores_is_accepted() {
    assert_eq!(usernameValidator("john_doe_42"), Ok(()));
    assert_eq!(usernameValidator("a"), Ok(()));
}

#[test]
fn username_with_other_characters_is_refused() {
    assert_eq!(usernameValidator("john-doe"), Err(ONLY_ALLOWED));
    assert_eq!(usernameValidator("john doe"), Err(ONLY_ALLOWED));
    // A disallowed character is reported even where no letter is present.
    assert_eq!(usernameValidator("12!"), Err(ONLY_ALLOWED));
}

#[test]
fn username_without_letter_is_refused() {
    assert_eq!(usernameValidator("1234_"), Err(NEEDS_LETTER));
    assert_eq!(usernameValidator("____"), Err(NEEDS_LETTER));
    assert_eq!(usernameValidator(""), Err(NEEDS_LETTER));
}

#[test]
fn username_letters_are_english() {
    assert_eq!(usernameValidator("josé"), Err(ONLY_ALLOWED));
    assert_eq!(usernameValidator("élan_2"), Err(ONLY_ALLOWED));
    assert_eq!(usernameValidator("Zz_AZaz09"), Ok(()));
}

#[test]
fn username_digits_go_by_unicode_numbers() {
    // Digits of other scripts are numbers, but not letters.
    assert_eq!(usernameValidator("٣٤٥"), Err(NEEDS_LETTER));
    assert_eq!(usernameValidator("jane٣"), Ok(()));
}

#[test]
fn valid_registration_is_accepted() {
    assert_eq!(register("jane@example.com", "jane_doe", "secret123"), Ok(()));
    assert_eq!(register("a@b.co", "abcd", "123456"), Ok(()));
}

#[test]
fn length_bounds_are_inclusive() {
    let name50 = "a".repeat(50);
    let name51 = "a".repeat(51);
    assert_eq!(register("jane@example.com", &name50, &name50), Ok(()));
    assert_eq!(register("jane@example.com", &name51, "secret123"), Err(LENGTH_MESSAGE.to_string()));
    assert_eq!(register("jane@example.com", "jane", &name51), Err(LENGTH_MESSAGE.to_string()));
    assert_eq!(register("jane@example.com", "abc", "secret123"), Err(LENGTH_MESSAGE.to_string()));
    assert_eq!(register("jane@example.com", "jane", "12345"), Err(LENGTH_MESSAGE.to_string()));
}

#[test]
fn length_counts_characters() {
    // Six characters, twelve bytes.
    assert_eq!(register("jane@example.com", "jane", "éééééé"), Ok(()));
    // Five characters, ten bytes.
    assert_eq!(register("jane@example.com", "jane", "ééééé"), Err(LENGTH_MESSAGE.to_string()));
}

#[test]
fn invalid_email_is_refused() {
    assert_eq!(register("jane.example.com", "jane_doe", "secret123"), Err("Email is invalid".to_string()));
    assert_eq!(register("", "jane_doe", "secret123"), Err("Email is invalid".to_string()));
    assert_eq!(register("jane@", "jane_doe", "secret123"), Err("Email is invalid".to_string()));
}

#[test]
fn username_check_message_follows_the_length_message() {
    // Both checks of the username fail; the later one gives the field's message.
    assert_eq!(register("jane@example.com", "a!", "secret123"), Err(ONLY_ALLOWED.to_string()));
    assert_eq!(register("jane@example.com", "12", "secret123"), Err(NEEDS_LETTER.to_string()));
    assert_eq!(register("jane@example.com", "1234", "secret123"), Err(NEEDS_LETTER.to_string()));
}

#[test]
fn every_failing_field_gives_one_part() {
    let message = register("nope", "a!", "123").unwrap_err();
    assert_eq!(
        parts(&message),
        parts(&format!("Email is invalid | {} | {}", ONLY_ALLOWED, LENGTH_MESSAGE))
    );
    let message = register("nope", "jane", "123").unwrap_err();
    assert_eq!(parts(&message), parts(&format!("Email is invalid | {}", LENGTH_MESSAGE)));
}

#[test]
fn validate_reports_each_field() {
    let request = StartRegistrationRequest::new("nope", "jane", "123");
    let errors = request.validate().unwrap_err();
    let fields = errors.field_errors();
    assert_eq!(fields.len(), 2);
    assert_eq!(fields["email"][0].code, "email");
    assert_eq!(fields["password"][0].code, "length");
    assert_eq!(fields["email"][0].params.len(), 1);
    assert_eq!(fields["email"][0].params["value"], "nope");
    assert_eq!(fields["password"][0].params.len(), 3);
    assert_eq!(fields["password"][0].params["min"], 6);
    assert_eq!(fields["password"][0].params["max"], 50);
    assert_eq!(fields["password"][0].params["value"], "123");
    assert!(StartRegistrationRequest::new("jane@example.com", "jane", "secret").validate().is_ok());
}

#[test]
fn username_errors_record_the_value() {
    let request = StartRegistrationRequest::new("jane@example.com", "a!", "secret123");
    let errors = request.validate().unwrap_err();
    let fields = errors.field_errors();
    assert_eq!(fields.len(), 1);
    let username = fields["username"];
    assert_eq!(username.len(), 2);
    assert_eq!(username[0].code, "length");
    assert_eq!(username[0].params["min"], 4);
    assert_eq!(username[0].params["max"], 50);
    assert_eq!(username[0].params["value"], "a!");
    assert_eq!(username[1].code, ONLY_ALLOWED);
    assert_eq!(username[1].params.len(), 1);
    assert_eq!(username[1].params["value"], "a!");
}

#[test]
fn plain_usernames_need_an_english_letter() {
    assert_eq!(usernameValidator("ab1"), Ok(()));
    assert_eq!(usernameValidator("_9z"), Ok(()));
    assert_eq!(usernameValidator("_90"), Err(NEEDS_LETTER));
}
