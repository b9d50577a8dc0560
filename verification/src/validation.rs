//! Field rules, checked and worded by the `validator` crate.

use std::borrow::Cow;
use validator::{ValidateEmail, ValidateLength, ValidationError, ValidationErrors};
use vstd::prelude::*;

verus! {

/// Whether `text` is an e-mail address in the sense of `validator`.
pub uninterp spec fn is_email_address(text: Seq<char>) -> bool;

/// What separates a field's name from the message in a rendered violation.
pub const FIELD_SEPARATOR: &'static str = ": ";

/// Rendered form of one violation: the field's name, a colon and a space, the message.
pub open spec fn violation_text(field: Seq<char>, message: Seq<char>) -> Seq<char> {
    field + FIELD_SEPARATOR@ + message
}

/// What separates one violation from the next in a rendered report.
pub const LINE_BREAK: &'static str = "\n";

/// Two rendered violations, one to a line.
pub open spec fn two_lines(first: Seq<char>, second: Seq<char>) -> Seq<char> {
    first + LINE_BREAK@ + second
}

/// `validator::ValidateLength::validate_length` on a text, with a lower bound alone: the
/// text passes when it counts at least `min` characters.
#[verifier::external_body]
pub(crate) fn has_min_length(text: &str, min: u64) -> (ok: bool)
    ensures
        ok == (text@.len() >= min),
{
    text.validate_length(Some(min), None, None)
}

/// `validator::ValidateEmail::validate_email` on a text. Its answer depends on the text
/// alone; an empty text and a text without `@` never pass.
#[verifier::external_body]
pub(crate) fn is_email(text: &str) -> (ok: bool)
    ensures
        ok == is_email_address(text@),
        text@.len() == 0 ==> !ok,
        !text@.contains('@') ==> !ok,
{
    text.validate_email()
}

/// `Display` of a `validator::ValidationErrors` that holds a single error, which carries
/// `message`, under a single `field`: the field's name, `": "`, and the message.
#[verifier::external_body]
pub(crate) fn describe_violation(
    field: &'static str,
    code: &'static str,
    message: &'static str,
) -> (text: String)
    ensures
        text@ == violation_text(field@, message@),
{
    let mut errors = ValidationErrors::new();
    errors.add(field, ValidationError::new(code).with_message(Cow::Borrowed(message)));
    errors.to_string()
}

/// `Display` of a `validator::ValidationErrors` that holds two errors, each with its
/// message, under two different fields: one line for each field, as
/// [`describe_violation`] words it. `validator` keeps the fields in a hash map, so either
/// line may come first.
#[verifier::external_body]
pub(crate) fn describe_two_violations(
    first_field: &'static str,
    first_code: &'static str,
    first_message: &'static str,
    second_field: &'static str,
    second_code: &'static str,
    second_message: &'static str,
) -> (text: String)
    requires
        first_field@ != second_field@,
    ensures
        text@ == two_lines(
            violation_text(first_field@, first_message@),
            violation_text(second_field@, second_message@),
        ) || text@ == two_lines(
            violation_text(second_field@, second_message@),
            violation_text(first_field@, first_message@),
        ),
{
    let mut errors = ValidationErrors::new();
    errors.add(first_field, ValidationError::new(first_code).with_message(Cow::Borrowed(first_message)));
    errors.add(second_field, ValidationError::new(second_code).with_message(Cow::Borrowed(second_message)));
    errors.to_string()
}

} // verus!
