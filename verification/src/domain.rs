//! The registration use case: what a registration request must satisfy, and
//! what a refused one is answered with.

use vstd::prelude::*;
use validator::{ValidationError, ValidationErrors};
use crate::chars::{english_letter, is_english_letter, is_numeric, numeric};
use crate::messages::{
    SERVER_ERROR, code_message, extractValidationErrorMessages, field_message, field_messages, joined,
    walk_message,
};
use crate::validation::{
    ParamValue, add_number_param, add_text_param, field_error_params, new_validation_error, no_params,
    validation_error_code, validation_error_params, add_field_error, email_accepted, field_error_codes, is_field_walk, length_accepted,
    nested_error_fields, new_validation_errors, validate_email, validate_length,
    validation_errors_is_empty,
};

verus! {

/// The use cases of the service.
pub struct Usecases {}

/// A character that a username may hold: an English letter, a digit or '_'.
pub open spec fn username_char_allowed(c: char) -> bool {
    english_letter(c) || numeric(c) || c == '_'
}

/// The error code that the username check gives `username`, if any: a
/// character that is not allowed comes first, then the want of a letter.
pub open spec fn username_error(username: Seq<char>) -> Option<Seq<char>> {
    if exists|i: int| 0 <= i < username.len() && !username_char_allowed(#[trigger] username[i]) {
        Some("Only English alphabets, numbers and underscores are allowed in the username"@)
    } else if forall|i: int| 0 <= i < username.len() ==> !english_letter(#[trigger] username[i]) {
        Some("Username cannot contain only underscores and digits"@)
    } else {
        None
    }
}

/// An English letter, an ASCII digit or '_'.
pub open spec fn plain_username_char(c: char) -> bool {
    english_letter(c) || ('0' <= c && c <= '9') || c == '_'
}

/// usernameValidator checks that the username holds only English letters,
/// digits and underscores, and at least one English letter. A username made of
/// English letters, ASCII digits and underscores is accepted exactly when it
/// holds an English letter.
pub fn usernameValidator(username: &str) -> (result: Result<(), &'static str>)
    ensures
        match result {
            Ok(()) => username_error(username@) is None,
            Err(code) => username_error(username@) == Some(code@),
        },
        (forall|i: int| 0 <= i < username@.len() ==> plain_username_char(#[trigger] username@[i]))
            ==> (result is Ok <==> exists|i: int| 0 <= i < username@.len() && english_letter(#[trigger] username@[i])),
        result is Ok ==> forall|i: int| 0 <= i < username@.len() ==> (('a' <= #[trigger] username@[i] && username@[i] <= 'z')
            || ('A' <= username@[i] && username@[i] <= 'Z') || numeric(username@[i]) || username@[i] == '_'),
        (exists|i: int| 0 <= i < username@.len() && !(('a' <= #[trigger] username@[i] && username@[i] <= 'z')
            || ('A' <= username@[i] && username@[i] <= 'Z') || numeric(username@[i]) || username@[i] == '_'))
            ==> (result matches Err(code) && code@ == "Only English alphabets, numbers and underscores are allowed in the username"@),
        (forall|i: int| 0 <= i < username@.len() ==> (('a' <= #[trigger] username@[i] && username@[i] <= 'z')
            || ('A' <= username@[i] && username@[i] <= 'Z') || ('0' <= username@[i] && username@[i] <= '9')
            || username@[i] == '_'))
            && (exists|i: int| 0 <= i < username@.len() && (('a' <= #[trigger] username@[i] && username@[i] <= 'z')
            || ('A' <= username@[i] && username@[i] <= 'Z')))
            ==> result is Ok,
{
    let mut seen_letter = false;
    for character in it: username.chars()
        invariant
            it.seq() == username@,
            forall|j: int| 0 <= j < it.index() ==> username_char_allowed(#[trigger] username@[j]),
            !seen_letter == (forall|j: int| 0 <= j < it.index() ==> !english_letter(#[trigger] username@[j])),
            forall|j: int| 0 <= j < it.index() && '0' <= #[trigger] username@[j] && username@[j] <= '9'
                ==> numeric(username@[j]),
    {
        // Only English letters, digits and underscores are allowed.
        let letter = is_english_letter(character);
        if !letter && !is_numeric(character) && character != '_' {
            return Err("Only English alphabets, numbers and underscores are allowed in the username");
        }
        if letter {
            seen_letter = true;
        }
    }
    proof {
        lemma_username_check(username@);
    }
    // At least one English letter must be present.
    if !seen_letter {
        return Err("Username cannot contain only underscores and digits");
    }
    Ok(())
}

/// The request to start a registration.
pub struct StartRegistrationRequest<'a> {
    email: &'a str,
    username: &'a str,
    password: &'a str,
}

/// The field-level error codes that validating a request with these fields
/// gives, per field, in the order the checks run.
pub open spec fn registration_error_codes(
    email: Seq<char>,
    username: Seq<char>,
    password: Seq<char>,
) -> Map<Seq<char>, Seq<Option<Seq<char>>>> {
    let username_codes = (if length_accepted(username.len() as int, Some(4), Some(50), None) {
        Seq::empty()
    } else {
        seq![Some("length"@)]
    }) + match username_error(username) {
        Some(code) => seq![Some(code)],
        None => Seq::empty(),
    };
    let with_email = if email_accepted(email) {
        Map::empty()
    } else {
        Map::empty().insert("email"@, seq![Some("email"@)])
    };
    let with_username = if username_codes.len() == 0 {
        with_email
    } else {
        with_email.insert("username"@, username_codes)
    };
    if length_accepted(password.len() as int, Some(6), Some(50), None) {
        with_username
    } else {
        with_username.insert("password"@, seq![Some("length"@)])
    }
}

/// The parameters of an error that records only the checked value.
pub open spec fn value_params(value: Seq<char>) -> Map<Seq<char>, ParamValue> {
    no_params().insert("value"@, ParamValue::Text(value))
}

/// The parameters of a length error: the bounds, then the checked value.
pub open spec fn length_params(value: Seq<char>, min: u64, max: u64) -> Map<Seq<char>, ParamValue> {
    no_params().insert("min"@, ParamValue::Number(min)).insert("max"@, ParamValue::Number(max)).insert(
        "value"@,
        ParamValue::Text(value),
    )
}

/// The parameters of the field-level errors that validating a request with
/// these fields gives, per field, in the same order as their codes in
/// `registration_error_codes`.
pub open spec fn registration_error_params(
    email: Seq<char>,
    username: Seq<char>,
    password: Seq<char>,
) -> Map<Seq<char>, Seq<Map<Seq<char>, ParamValue>>> {
    let username_params = (if length_accepted(username.len() as int, Some(4), Some(50), None) {
        Seq::empty()
    } else {
        seq![length_params(username, 4, 50)]
    }) + (if username_error(username) is Some {
        seq![value_params(username)]
    } else {
        Seq::empty()
    });
    let with_email = if email_accepted(email) {
        Map::empty()
    } else {
        Map::empty().insert("email"@, seq![value_params(email)])
    };
    let with_username = if username_params.len() == 0 {
        with_email
    } else {
        with_email.insert("username"@, username_params)
    };
    if length_accepted(password.len() as int, Some(6), Some(50), None) {
        with_username
    } else {
        with_username.insert("password"@, seq![length_params(password, 6, 50)])
    }
}

/// An error with the code `code` that records the checked value.
fn value_error(code: &'static str, value: &str) -> (error: ValidationError)
    ensures
        validation_error_code(error) == Some(code@),
        validation_error_params(error) == value_params(value@),
{
    let mut error = new_validation_error(code);
    add_text_param(&mut error, "value", value);
    error
}

/// A length error that records the bounds and the checked value.
fn length_error(value: &str, min: u64, max: u64) -> (error: ValidationError)
    ensures
        validation_error_code(error) == Some("length"@),
        validation_error_params(error) == length_params(value@, min, max),
{
    let mut error = new_validation_error("length");
    add_number_param(&mut error, "min", min);
    add_number_param(&mut error, "max", max);
    add_text_param(&mut error, "value", value);
    error
}

/// A registration request is valid when the email is accepted, the username has
/// 4 to 50 characters and passes the username check, and the password has 6 to
/// 50 characters.
pub open spec fn registration_valid(email: Seq<char>, username: Seq<char>, password: Seq<char>) -> bool {
    &&& email_accepted(email)
    &&& 4 <= username.len() <= 50
    &&& username_error(username) is None
    &&& 6 <= password.len() <= 50
}

impl<'a> StartRegistrationRequest<'a> {
    pub closed spec fn email_view(&self) -> Seq<char> {
        self.email@
    }

    pub closed spec fn username_view(&self) -> Seq<char> {
        self.username@
    }

    pub closed spec fn password_view(&self) -> Seq<char> {
        self.password@
    }

    pub open spec fn error_codes(&self) -> Map<Seq<char>, Seq<Option<Seq<char>>>> {
        registration_error_codes(self.email_view(), self.username_view(), self.password_view())
    }

    pub open spec fn error_params(&self) -> Map<Seq<char>, Seq<Map<Seq<char>, ParamValue>>> {
        registration_error_params(self.email_view(), self.username_view(), self.password_view())
    }

    pub open spec fn is_valid(&self) -> bool {
        registration_valid(self.email_view(), self.username_view(), self.password_view())
    }

    pub fn new(email: &'a str, username: &'a str, password: &'a str) -> (request: Self)
        ensures
            request.email_view() == email@,
            request.username_view() == username@,
            request.password_view() == password@,
    {
        StartRegistrationRequest { email, username, password }
    }

    /// Runs the checks of each field in turn and collects the failures: the
    /// email check, then the username's length and the username check, then
    /// the password's length.
    pub fn validate(&self) -> (result: Result<(), ValidationErrors>)
        ensures
            match result {
                Ok(()) => self.error_codes().dom() == Set::<Seq<char>>::empty(),
                Err(errors) => {
                    &&& field_error_codes(errors) == self.error_codes()
                    &&& field_error_params(errors) == self.error_params()
                    &&& nested_error_fields(errors) == Set::<Seq<char>>::empty()
                    &&& self.error_codes().dom() != Set::<Seq<char>>::empty()
                },
            },
            result is Ok <==> {
                &&& email_accepted(self.email_view())
                &&& 4 <= self.username_view().len() && self.username_view().len() <= 50
                &&& forall|i: int| 0 <= i < self.username_view().len() ==> (('a' <= #[trigger] self.username_view()[i]
                    && self.username_view()[i] <= 'z') || ('A' <= self.username_view()[i] && self.username_view()[i] <= 'Z')
                    || numeric(self.username_view()[i]) || self.username_view()[i] == '_')
                &&& exists|i: int| 0 <= i < self.username_view().len() && (('a' <= #[trigger] self.username_view()[i]
                    && self.username_view()[i] <= 'z') || ('A' <= self.username_view()[i] && self.username_view()[i] <= 'Z'))
                &&& 6 <= self.password_view().len() && self.password_view().len() <= 50
            },
            result matches Err(errors) ==> {
                &&& field_error_codes(errors).contains_key("email"@) <==> !email_accepted(self.email_view())
                &&& field_error_codes(errors).contains_key("password"@)
                    <==> !(6 <= self.password_view().len() && self.password_view().len() <= 50)
                &&& field_error_codes(errors).contains_key("username"@) <==> {
                    ||| !(4 <= self.username_view().len() && self.username_view().len() <= 50)
                    ||| exists|i: int| 0 <= i < self.username_view().len() && !(('a' <= #[trigger] self.username_view()[i]
                        && self.username_view()[i] <= 'z') || ('A' <= self.username_view()[i] && self.username_view()[i] <= 'Z')
                        || numeric(self.username_view()[i]) || self.username_view()[i] == '_')
                    ||| forall|i: int| 0 <= i < self.username_view().len() ==> !(('a' <= #[trigger] self.username_view()[i]
                        && self.username_view()[i] <= 'z') || ('A' <= self.username_view()[i] && self.username_view()[i] <= 'Z'))
                }
                &&& field_error_codes(errors).contains_key("email"@) ==> field_error_codes(errors)["email"@] == seq![Some("email"@)]
                &&& field_error_codes(errors).contains_key("password"@)
                    ==> field_error_codes(errors)["password"@] == seq![Some("length"@)]
            },
    {
        proof {
            reveal_strlit("email");
            reveal_strlit("username");
            reveal_strlit("password");
            assert("email"@.len() == 5);
            assert("username"@.len() == 8);
            assert("password"@.len() == 8);
            assert("username"@[0] != "password"@[0]);
        }
        let ghost email = self.email_view();
        let ghost username = self.username_view();
        let ghost password = self.password_view();
        let mut errors = new_validation_errors();
        if !validate_email(self.email) {
            add_field_error(&mut errors, "email", value_error("email", self.email));
        }
        let ghost with_email = field_error_codes(errors);
        let ghost with_email_params = field_error_params(errors);
        assert(!with_email.contains_key("username"@));
        assert(!with_email.contains_key("password"@));
        assert(!with_email_params.contains_key("username"@));
        assert(!with_email_params.contains_key("password"@));
        let ghost length_ok = length_accepted(username.len() as int, Some(4), Some(50), None);
        let ghost length_codes: Seq<Option<Seq<char>>> = if length_ok {
            Seq::empty()
        } else {
            seq![Some("length"@)]
        };
        let ghost length_param_seq: Seq<Map<Seq<char>, ParamValue>> = if length_ok {
            Seq::empty()
        } else {
            seq![length_params(username, 4, 50)]
        };
        if !validate_length(self.username, Some(4), Some(50), None) {
            add_field_error(&mut errors, "username", length_error(self.username, 4, 50));
        }
        let ghost custom_codes: Seq<Option<Seq<char>>> = match username_error(username) {
            Some(code) => seq![Some(code)],
            None => Seq::empty(),
        };
        let ghost custom_params: Seq<Map<Seq<char>, ParamValue>> = if username_error(username) is Some {
            seq![value_params(username)]
        } else {
            Seq::empty()
        };
        if let Err(code) = usernameValidator(self.username) {
            add_field_error(&mut errors, "username", value_error(code, self.username));
            proof {
                assert(custom_codes =~= seq![Some(code@)]);
                if length_ok {
                    assert(length_codes + custom_codes =~= seq![Some(code@)]);
                    assert(length_param_seq + custom_params =~= seq![value_params(username)]);
                } else {
                    assert(length_codes + custom_codes =~= length_codes.push(Some(code@)));
                    assert(length_param_seq + custom_params =~= length_param_seq.push(value_params(username)));
                }
            }
        } else {
            assert(length_codes + custom_codes =~= length_codes);
            assert(length_param_seq + custom_params =~= length_param_seq);
        }
        let ghost username_codes = length_codes + custom_codes;
        let ghost username_params = length_param_seq + custom_params;
        assert(username_codes.len() == username_params.len());
        assert(username_codes.len() == 0 ==> field_error_codes(errors) =~= with_email);
        assert(username_codes.len() > 0 ==> field_error_codes(errors) =~= with_email.insert("username"@, username_codes));
        assert(username_params.len() == 0 ==> field_error_params(errors) =~= with_email_params);
        assert(username_params.len() > 0 ==> field_error_params(errors) =~= with_email_params.insert("username"@, username_params));
        let ghost with_username = field_error_codes(errors);
        assert(!with_username.contains_key("password"@));
        assert(!field_error_params(errors).contains_key("password"@));
        if !validate_length(self.password, Some(6), Some(50), None) {
            add_field_error(&mut errors, "password", length_error(self.password, 6, 50));
        }
        assert(field_error_codes(errors) =~= self.error_codes());
        assert(field_error_params(errors) =~= self.error_params());
        proof {
            lemma_username_check(username);
            lemma_field_errors_independent(email, username, password, email, username, password);
            lemma_no_error_codes_iff_valid(email, username, password);
        }
        if validation_errors_is_empty(&errors) {
            Ok(())
        } else {
            Err(errors)
        }
    }
}


/// The username check, with its character classes written out: a character
/// outside the ASCII letters, the Unicode numbers and '_' gives the first
/// refusal; otherwise a username with no ASCII letter gives the second; and a
/// username passes exactly when all its characters are in those classes and
/// one of them is an ASCII letter.
pub proof fn lemma_username_check(username: Seq<char>)
    ensures
        (exists|i: int| 0 <= i < username.len() && !(('a' <= #[trigger] username[i] && username[i] <= 'z')
            || ('A' <= username[i] && username[i] <= 'Z') || numeric(username[i]) || username[i] == '_'))
            <==> username_error(username) == Some("Only English alphabets, numbers and underscores are allowed in the username"@),
        username_error(username) is None <==> {
            &&& forall|i: int| 0 <= i < username.len() ==> (('a' <= #[trigger] username[i] && username[i] <= 'z')
                || ('A' <= username[i] && username[i] <= 'Z') || numeric(username[i]) || username[i] == '_')
            &&& exists|i: int| 0 <= i < username.len() && (('a' <= #[trigger] username[i] && username[i] <= 'z')
                || ('A' <= username[i] && username[i] <= 'Z'))
        },
        (forall|i: int| 0 <= i < username.len() ==> (('a' <= #[trigger] username[i] && username[i] <= 'z')
            || ('A' <= username[i] && username[i] <= 'Z') || numeric(username[i]) || username[i] == '_'))
            && (forall|i: int| 0 <= i < username.len() ==> !(('a' <= #[trigger] username[i] && username[i] <= 'z')
            || ('A' <= username[i] && username[i] <= 'Z')))
            <==> username_error(username) == Some("Username cannot contain only underscores and digits"@),
{
    reveal_strlit("Only English alphabets, numbers and underscores are allowed in the username");
    reveal_strlit("Username cannot contain only underscores and digits");
    assert("Only English alphabets, numbers and underscores are allowed in the username"@ != "Username cannot contain only underscores and digits"@) by {
        assert("Only English alphabets, numbers and underscores are allowed in the username"@[0] != "Username cannot contain only underscores and digits"@[0]);
    }
}

/// Each field's errors depend on that field alone: the email is reported,
/// with the code "email", exactly when it is refused; the password, with the
/// code "length", exactly when it has fewer than 6 or more than 50
/// characters; the username exactly when it has fewer than 4 or more than 50
/// characters or fails the username check; no other field is reported; and a
/// field's entry is the same whatever the other fields hold.
pub proof fn lemma_field_errors_independent(
    email: Seq<char>,
    username: Seq<char>,
    password: Seq<char>,
    other_email: Seq<char>,
    other_username: Seq<char>,
    other_password: Seq<char>,
)
    ensures
        registration_error_codes(email, username, password).contains_key("email"@) <==> !email_accepted(email),
        registration_error_codes(email, username, password).contains_key("password"@)
            <==> !(6 <= password.len() && password.len() <= 50),
        registration_error_codes(email, username, password).contains_key("username"@)
            <==> !(4 <= username.len() && username.len() <= 50) || username_error(username) is Some,
        forall|field: Seq<char>| #[trigger] registration_error_codes(email, username, password).contains_key(field)
            ==> field == "email"@ || field == "username"@ || field == "password"@,
        registration_error_codes(email, username, password).contains_key("email"@)
            ==> registration_error_codes(email, username, password)["email"@] == seq![Some("email"@)],
        registration_error_codes(email, username, password).contains_key("password"@)
            ==> registration_error_codes(email, username, password)["password"@] == seq![Some("length"@)],
        registration_error_codes(email, username, password).contains_key("username"@)
            ==> registration_error_codes(other_email, username, other_password).contains_key("username"@)
            && registration_error_codes(email, username, password)["username"@]
                == registration_error_codes(other_email, username, other_password)["username"@],
{
    reveal_strlit("email");
    reveal_strlit("username");
    reveal_strlit("password");
    assert("email"@.len() == 5);
    assert("username"@.len() == 8);
    assert("password"@.len() == 8);
    assert("username"@[0] != "password"@[0]);
}

/// A request passes validation exactly when it is valid.
pub proof fn lemma_no_error_codes_iff_valid(email: Seq<char>, username: Seq<char>, password: Seq<char>)
    ensures
        registration_valid(email, username, password)
            <==> registration_error_codes(email, username, password).dom() == Set::<Seq<char>>::empty(),
{
    let codes = registration_error_codes(email, username, password);
    if !registration_valid(email, username, password) {
        reveal_strlit("email");
        reveal_strlit("username");
        reveal_strlit("password");
        if !email_accepted(email) {
            assert(codes.dom().contains("email"@));
        } else if !(4 <= username.len() <= 50) || username_error(username) is Some {
            assert(codes.dom().contains("username"@));
        } else {
            assert(codes.dom().contains("password"@));
        }
    } else {
        assert(codes.dom() =~= Set::<Seq<char>>::empty());
    }
}

impl Usecases {
    /// Starts a registration: refuses a request that fails validation, with
    /// the message of its field errors.
    pub fn startRegistration(&self, args: StartRegistrationRequest<'_>) -> (result: Result<(), String>)
        ensures
            result is Ok <==> args.is_valid(),
            result matches Err(message) ==> exists|walk: Seq<(Seq<char>, Seq<Option<Seq<char>>>)>|
                #[trigger] is_field_walk(args.error_codes(), walk) && message@ == walk_message(walk),
    {
        proof {
            lemma_no_error_codes_iff_valid(args.email_view(), args.username_view(), args.password_view());
        }
        match args.validate() {
            Ok(()) => Ok(()),
            Err(errors) => Err(extractValidationErrorMessages(errors)),
        }
    }
}


/// The first characters of the messages that a refused registration can hold.
pub open spec fn refusal_initial(c: char) -> bool {
    c == 'E' || c == 'P' || c == 'O' || c == 'U'
}

proof fn lemma_joined_initial(parts: Seq<Seq<char>>, sep: Seq<char>)
    requires
        parts.len() > 0,
        parts[0].len() > 0,
    ensures
        joined(parts, sep).len() > 0,
        joined(parts, sep)[0] == parts[0][0],
    decreases parts.len(),
{
    if parts.len() > 1 {
        lemma_joined_initial(parts.drop_last(), sep);
    }
}

proof fn lemma_field_message_initial(email: Seq<char>, username: Seq<char>, password: Seq<char>, field: Seq<char>)
    requires
        registration_error_codes(email, username, password).contains_key(field),
    ensures
        field_message(registration_error_codes(email, username, password)[field]).len() > 0,
        refusal_initial(field_message(registration_error_codes(email, username, password)[field])[0]),
{
    reveal_strlit("email");
    reveal_strlit("length");
    reveal_strlit("Email is invalid");
    reveal_strlit("Password should be between 6 - 50 characters");
    reveal_strlit("Only English alphabets, numbers and underscores are allowed in the username");
    reveal_strlit("Username cannot contain only underscores and digits");
    let codes = registration_error_codes(email, username, password)[field];
    assert(codes.len() > 0);
    let last = codes.last();
    assert(last is Some);
    let code = last->Some_0;
    assert(code == "email"@ || code == "length"@
        || code == "Only English alphabets, numbers and underscores are allowed in the username"@
        || code == "Username cannot contain only underscores and digits"@);
    assert(field_message(codes) == code_message(code));
}

/// A refused registration is answered with a message that is not empty and
/// is never the server-error message, whatever order the fields come in.
pub proof fn lemma_refusal_message(
    email: Seq<char>,
    username: Seq<char>,
    password: Seq<char>,
    walk: Seq<(Seq<char>, Seq<Option<Seq<char>>>)>,
)
    requires
        !registration_valid(email, username, password),
        is_field_walk(registration_error_codes(email, username, password), walk),
    ensures
        walk_message(walk).len() > 0,
        refusal_initial(walk_message(walk)[0]),
        walk_message(walk) != SERVER_ERROR@,
{
    let codes = registration_error_codes(email, username, password);
    lemma_no_error_codes_iff_valid(email, username, password);
    let k = codes.dom().choose();
    assert(codes.dom().contains(k));
    assert(walk.len() > 0);
    lemma_field_message_initial(email, username, password, walk[0].0);
    let parts = field_messages(walk);
    assert(parts[0] == field_message(walk[0].1));
    lemma_joined_initial(parts, " | "@);
    reveal_strlit("Server error occurred");
    assert(SERVER_ERROR@[0] == 'S');
}

} // verus!
