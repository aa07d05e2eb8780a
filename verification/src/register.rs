//! The registration form and the rules that its fields have to meet.

use crate::error::{FieldError, PupilErrorKind, ThresholdField};
use vstd::prelude::*;
use vstd::string::*;

verus! {

/// The fields of a registration request. They hold a password: the type
/// cannot be printed.
#[derive(Clone, PartialEq, Eq)]
pub struct Register {
    pub name: String,
    pub email: String,
    pub username: String,
    pub password: String,
}

/// What becomes of the data of a registration request.
#[derive(Clone, PartialEq, Eq)]
pub enum Intake {
    /// The form keeps every rule.
    Accepted(Register),
    /// The request is turned down.
    Refused(PupilErrorKind),
    /// The request is not meant for registration: another handler may take it.
    Forwarded,
}

/// Whether `publicsuffix` takes a string for an email address: what
/// `List::parse_email` answers on a list without rules. The rules of a list
/// add detail to the parsed host and never turn an address down.
pub uninterp spec fn address_parses(address: Seq<char>) -> bool;

/// Calls `publicsuffix::List::parse_email` on an empty list and tells
/// whether it returned a host. The contract names the answer and claims no
/// more: it depends on the address alone.
#[verifier::external_body]
fn parses_as_address(address: &str) -> (ok: bool)
    ensures
        ok == address_parses(address@),
{
    publicsuffix::List::empty().parse_email(address).is_ok()
}

/// A character that a username may hold: an ASCII letter, an ASCII digit or
/// an underscore.
pub open spec fn username_char(c: char) -> bool {
    ('a' <= c && c <= 'z') || ('A' <= c && c <= 'Z') || ('0' <= c && c <= '9') || c == '_'
}

/// A username that holds nothing but what a username may hold.
pub open spec fn username_allowed(username: Seq<char>) -> bool {
    forall|i: int| 0 <= i < username.len() ==> username_char(#[trigger] username[i])
}

/// Whether a length lies between two bounds, both included.
pub open spec fn length_within(text: Seq<char>, least: int, most: int) -> bool {
    least <= text.len() <= most
}

/// The first field that breaks a rule, in the order name, email, username,
/// password, given whether the email parses as an address.
pub open spec fn first_fault(form: Register, email_parses: bool) -> Option<ThresholdField> {
    if !length_within(form.name@, 4, 128) {
        Some(ThresholdField::Name)
    } else if !(length_within(form.email@, 5, 128) && email_parses) {
        Some(ThresholdField::Email)
    } else if !(length_within(form.username@, 3, 32) && username_allowed(form.username@)) {
        Some(ThresholdField::User)
    } else if !length_within(form.password@, 8, 128) {
        Some(ThresholdField::Pass)
    } else {
        None
    }
}

/// What validation returns for a form, given whether its email parses.
pub open spec fn verdict_of(form: Register, email_parses: bool) -> Result<(), PupilErrorKind> {
    match first_fault(form, email_parses) {
        Some(field) => Err(PupilErrorKind::AuthInput { field, error: FieldError::Invalid }),
        None => Ok(()),
    }
}

/// What becomes of a request: one whose content is not JSON is forwarded,
/// one whose body could not be read as a form is refused as bad JSON, and a
/// form is accepted where it keeps every rule and refused with its first
/// fault where it does not.
pub open spec fn intake_of(json: bool, body: Option<Register>) -> Intake {
    if !json {
        Intake::Forwarded
    } else {
        match body {
            None => Intake::Refused(PupilErrorKind::BadJson),
            Some(form) => match verdict_of(form, address_parses(form.email@)) {
                Ok(_) => Intake::Accepted(form),
                Err(kind) => Intake::Refused(kind),
            },
        }
    }
}

/// Whether a username holds nothing but ASCII letters, ASCII digits and
/// underscores.
pub fn valid_username(username: &str) -> (ok: bool)
    ensures
        ok == username_allowed(username@),
{
    broadcast use vstd::string::group_string_axioms;

    let mut ok = true;
    for c in iter: username.chars()
        invariant
            iter.seq() == username@,
            ok == (forall|i: int|
                0 <= i < iter.index() ==> username_char(#[trigger] username@[i])),
    {
        if !((c >= 'a' && c <= 'z') || (c >= 'A' && c <= 'Z') || (c >= '0' && c <= '9') || c
            == '_') {
            ok = false;
        }
    }
    ok
}

/// Whether a string is an email address.
pub fn valid_email(email: &str) -> (ok: bool)
    ensures
        ok == address_parses(email@),
{
    parses_as_address(email)
}

/// Whether the number of characters of a string lies between two bounds.
fn within(text: &str, least: usize, most: usize) -> (ok: bool)
    ensures
        ok == length_within(text@, least as int, most as int),
{
    let n = text.unicode_len();
    least <= n && n <= most
}

impl Register {
    /// Takes the data of a registration request in: whether its content type
    /// is JSON, and the form that was read from its body, if one was.
    pub fn from_data(json: bool, body: Option<Register>) -> (intake: Intake)
        ensures
            intake == intake_of(json, body),
    {
        if !json {
            return Intake::Forwarded;
        }
        match PupilErrorKind::from_body(body) {
            Err(kind) => Intake::Refused(kind),
            Ok(form) => match form.validate() {
                Ok(_) => Intake::Accepted(form),
                Err(kind) => Intake::Refused(kind),
            },
        }
    }

    /// Checks the fields in the order name, email, username, password and
    /// reports the first that breaks a rule. The email is handed to the
    /// address parser only where its length is in order.
    pub fn validate(&self) -> (verdict: Result<(), PupilErrorKind>)
        ensures
            verdict == verdict_of(*self, address_parses(self.email@)),
    {
        let parses = within(self.email.as_str(), 5, 128) && valid_email(self.email.as_str());
        self.validate_with(parses)
    }

    /// The same check, for a caller that has asked the address parser
    /// itself.
    pub fn validate_with(&self, email_parses: bool) -> (verdict: Result<(), PupilErrorKind>)
        ensures
            verdict == verdict_of(*self, email_parses),
    {
        if !within(self.name.as_str(), 4, 128) {
            Err(PupilErrorKind::AuthInput { field: ThresholdField::Name, error: FieldError::Invalid })
        } else if !(within(self.email.as_str(), 5, 128) && email_parses) {
            Err(
                PupilErrorKind::AuthInput {
                    field: ThresholdField::Email,
                    error: FieldError::Invalid,
                },
            )
        } else if !(within(self.username.as_str(), 3, 32) && valid_username(
            self.username.as_str(),
        )) {
            Err(PupilErrorKind::AuthInput { field: ThresholdField::User, error: FieldError::Invalid })
        } else if !within(self.password.as_str(), 8, 128) {
            Err(PupilErrorKind::AuthInput { field: ThresholdField::Pass, error: FieldError::Invalid })
        } else {
            Ok(())
        }
    }
}

/// A name that is too short or too long is reported before anything else is
/// looked at, whatever the other fields hold.
pub proof fn law_name_is_checked_first(form: Register, email_parses: bool)
    requires
        !length_within(form.name@, 4, 128),
    ensures
        verdict_of(form, email_parses) == Err::<(), PupilErrorKind>(
            PupilErrorKind::AuthInput { field: ThresholdField::Name, error: FieldError::Invalid },
        ),
{
}

/// Validation reports one field at most, as invalid, and accepts a form
/// exactly where every field keeps its rule.
pub proof fn law_validation_reports_first_fault(form: Register, email_parses: bool)
    ensures
        verdict_of(form, email_parses) is Ok <==> (length_within(form.name@, 4, 128)
            && length_within(form.email@, 5, 128) && email_parses && length_within(
            form.username@,
            3,
            32,
        ) && username_allowed(form.username@) && length_within(form.password@, 8, 128)),
        verdict_of(form, email_parses) matches Err(kind) ==> (kind matches PupilErrorKind::AuthInput {
            field,
            error,
        } && error == FieldError::Invalid && field != ThresholdField::UserOrPass),
{
}

} // verus!
