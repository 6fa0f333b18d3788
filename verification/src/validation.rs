//! Trusted items over the `validator` crate: its error collection
//! `ValidationErrors`, and the email and length checks.

use vstd::prelude::*;
use std::borrow::Cow;
use validator::{ValidationError, ValidationErrors};

verus! {

#[verifier::external_type_specification]
#[verifier::external_body]
pub struct ExValidationErrors(ValidationErrors);

/// The field-level errors held by a `ValidationErrors`: for each field name,
/// the codes of its errors in the order they were added. A code is `Some` when
/// the error's code is a borrowed `&'static str` and `None` when it is an owned
/// string.
pub uninterp spec fn field_error_codes(errors: ValidationErrors) -> Map<Seq<char>, Seq<Option<Seq<char>>>>;

/// The parameters of the field-level errors held by a `ValidationErrors`: for
/// each field name, the parameters of its errors, in the same order as their
/// codes in `field_error_codes`.
pub uninterp spec fn field_error_params(errors: ValidationErrors) -> Map<Seq<char>, Seq<Map<Seq<char>, ParamValue>>>;

/// The names under which a `ValidationErrors` holds nested (struct or list)
/// errors rather than field-level ones.
pub uninterp spec fn nested_error_fields(errors: ValidationErrors) -> Set<Seq<char>>;

#[verifier::external_type_specification]
#[verifier::external_body]
pub struct ExValidationError(ValidationError);

/// A parameter value of a validation error, as the JSON value it is stored as:
/// a string or an unsigned number.
pub enum ParamValue {
    Text(Seq<char>),
    Number(u64),
}

/// The code of a `ValidationError`: `Some` when it is a borrowed
/// `&'static str`, `None` when it is an owned string.
pub uninterp spec fn validation_error_code(error: ValidationError) -> Option<Seq<char>>;

/// The parameters held by a `ValidationError`, by name.
pub uninterp spec fn validation_error_params(error: ValidationError) -> Map<Seq<char>, ParamValue>;

/// No parameters.
pub open spec fn no_params() -> Map<Seq<char>, ParamValue> {
    Map::empty()
}

/// `ValidationError::new`: an error with the borrowed code `code`, and no
/// parameters.
#[verifier::external_body]
pub(crate) fn new_validation_error(code: &'static str) -> (error: ValidationError)
    ensures
        validation_error_code(error) == Some(code@),
        validation_error_params(error) == no_params(),
{
    ValidationError::new(code)
}

/// `ValidationError::add_param` with a string: the parameter `name` is set to
/// the JSON string of `value`; the code is unchanged.
#[verifier::external_body]
pub(crate) fn add_text_param(error: &mut ValidationError, name: &'static str, value: &str)
    ensures
        validation_error_code(*final(error)) == validation_error_code(*old(error)),
        validation_error_params(*final(error)) == validation_error_params(*old(error)).insert(
            name@,
            ParamValue::Text(value@),
        ),
{
    error.add_param(Cow::from(name), &value)
}

/// `ValidationError::add_param` with a `u64`: the parameter `name` is set to
/// the JSON number `value`; the code is unchanged.
#[verifier::external_body]
pub(crate) fn add_number_param(error: &mut ValidationError, name: &'static str, value: u64)
    ensures
        validation_error_code(*final(error)) == validation_error_code(*old(error)),
        validation_error_params(*final(error)) == validation_error_params(*old(error)).insert(
            name@,
            ParamValue::Number(value),
        ),
{
    error.add_param(Cow::from(name), &value)
}

/// One entry of `ValidationErrors::field_errors`: a field name and the codes of
/// its errors, as plain values.
pub struct FieldErrors {
    pub field: &'static str,
    pub codes: Vec<Option<&'static str>>,
}

pub open spec fn codes_view(codes: Seq<Option<&'static str>>) -> Seq<Option<Seq<char>>> {
    codes.map_values(|c: Option<&'static str>| match c {
        Some(s) => Some(s@),
        None => None,
    })
}

impl View for FieldErrors {
    type V = (Seq<char>, Seq<Option<Seq<char>>>);

    open spec fn view(&self) -> (Seq<char>, Seq<Option<Seq<char>>>) {
        (self.field@, codes_view(self.codes@))
    }
}

pub open spec fn walk_view(entries: Seq<FieldErrors>) -> Seq<(Seq<char>, Seq<Option<Seq<char>>>)> {
    entries.map_values(|e: FieldErrors| e@)
}

/// `walk` lists every entry of the finite map `fields` exactly once, in some order.
pub open spec fn is_field_walk(
    fields: Map<Seq<char>, Seq<Option<Seq<char>>>>,
    walk: Seq<(Seq<char>, Seq<Option<Seq<char>>>)>,
) -> bool {
    &&& fields.dom().finite()
    &&& walk.len() == fields.dom().len()
    &&& forall|i: int| 0 <= i < walk.len() ==> {
        &&& fields.contains_key(#[trigger] walk[i].0)
        &&& fields[walk[i].0] == walk[i].1
    }
    &&& forall|i: int, j: int| 0 <= i < j < walk.len() ==> #[trigger] walk[i].0 != #[trigger] walk[j].0
    &&& forall|k: Seq<char>| #[trigger] fields.contains_key(k) ==> exists|i: int| 0 <= i < walk.len() && walk[i].0 == k
}

/// The field-level codes of an empty collection.
pub open spec fn no_field_errors() -> Map<Seq<char>, Seq<Option<Seq<char>>>> {
    Map::empty()
}

/// The field-level parameters of an empty collection.
pub open spec fn no_field_params() -> Map<Seq<char>, Seq<Map<Seq<char>, ParamValue>>> {
    Map::empty()
}

/// `ValidationErrors::new`: an empty collection.
#[verifier::external_body]
pub(crate) fn new_validation_errors() -> (errors: ValidationErrors)
    ensures
        field_error_codes(errors) == no_field_errors(),
        field_error_params(errors) == no_field_params(),
        nested_error_fields(errors) == Set::<Seq<char>>::empty(),
{
    ValidationErrors::new()
}

/// `ValidationErrors::add`: the error is appended to the field's list, which
/// is created when the field has none. `add` panics when the field holds
/// nested errors, so such a field is excluded.
#[verifier::external_body]
pub(crate) fn add_field_error(errors: &mut ValidationErrors, field: &'static str, error: ValidationError)
    requires
        !nested_error_fields(*old(errors)).contains(field@),
    ensures
        nested_error_fields(*final(errors)) == nested_error_fields(*old(errors)),
        field_error_codes(*final(errors)) == field_error_codes(*old(errors)).insert(
            field@,
            if field_error_codes(*old(errors)).contains_key(field@) {
                field_error_codes(*old(errors))[field@].push(validation_error_code(error))
            } else {
                seq![validation_error_code(error)]
            },
        ),
        field_error_params(*final(errors)) == field_error_params(*old(errors)).insert(
            field@,
            if field_error_params(*old(errors)).contains_key(field@) {
                field_error_params(*old(errors))[field@].push(validation_error_params(error))
            } else {
                seq![validation_error_params(error)]
            },
        ),
{
    errors.add(field, error)
}

/// `ValidationErrors::is_empty`: true when the collection holds no entry of
/// either kind.
#[verifier::external_body]
pub(crate) fn validation_errors_is_empty(errors: &ValidationErrors) -> (empty: bool)
    ensures
        empty == (field_error_codes(*errors).dom() == Set::<Seq<char>>::empty()
            && nested_error_fields(*errors) == Set::<Seq<char>>::empty()),
{
    errors.is_empty()
}

/// `ValidationErrors::field_errors`, walked: every field-level entry exactly
/// once. The order is that of a `HashMap` walk, which nothing fixes, so no
/// order is stated.
#[verifier::external_body]
pub(crate) fn field_errors(errors: &ValidationErrors) -> (entries: Vec<FieldErrors>)
    ensures
        is_field_walk(field_error_codes(*errors), walk_view(entries@)),
{
    errors.field_errors().into_iter().map(|(field, list)| FieldErrors {
        field,
        codes: list.iter().map(|e| match &e.code {
            std::borrow::Cow::Borrowed(code) => Some(*code),
            std::borrow::Cow::Owned(_) => None,
        }).collect(),
    }).collect()
}

/// Whether `validator::validate_email` accepts the value (an HTML5 email
/// address check by regular expressions and IDNA).
pub uninterp spec fn email_accepted(value: Seq<char>) -> bool;

/// `validator::validate_email`. Its result is named; of it the source plainly
/// shows only that a value without '@' is refused.
#[verifier::external_body]
pub(crate) fn validate_email(value: &str) -> (valid: bool)
    ensures
        valid == email_accepted(value@),
        !value@.contains('@') ==> !valid,
{
    validator::validate_email(value)
}

/// What `validator::validate_length` decides for a value of `len` characters.
pub open spec fn length_accepted(len: int, min: Option<u64>, max: Option<u64>, equal: Option<u64>) -> bool {
    match equal {
        Some(eq) => len == eq,
        None => {
            &&& (min matches Some(m) ==> m <= len)
            &&& (max matches Some(m) ==> len <= m)
        },
    }
}

/// `validator::validate_length` on a string, whose length is its number of
/// characters.
#[verifier::external_body]
pub(crate) fn validate_length(value: &str, min: Option<u64>, max: Option<u64>, equal: Option<u64>) -> (valid: bool)
    ensures
        valid == length_accepted(value@.len() as int, min, max, equal),
{
    validator::validate_length(value, min, max, equal)
}

} // verus!
