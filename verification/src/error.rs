//! The closed set of failure kinds that leave this library, the message and
//! status class of each, and the rules that sort storage failures into them.

use crate::text::{json_quoted, str_eq};
use vstd::prelude::*;

verus! {

/// Which field of the request input was at fault.
#[derive(Debug, Clone, Copy, PartialEq, Eq, Structural)]
pub enum ThresholdField {
    User,
    Pass,
    Name,
    Email,
    UserOrPass,
}

/// What was wrong with the field.
#[derive(Debug, Clone, Copy, PartialEq, Eq, Structural)]
pub enum FieldError {
    Taken,
    Invalid,
}

/// Which flow found that an account still waits for its confirmation.
#[derive(Debug, Clone, Copy, PartialEq, Eq, Structural)]
pub enum ThresholdKind {
    Register,
    Login,
}

/// The failure kinds. Nothing of the failing backend is carried along, so
/// nothing of it can reach a client.
#[derive(Debug, Clone, Copy, PartialEq, Eq, Structural)]
pub enum PupilErrorKind {
    /// A query failed in storage.
    DatabaseError,
    /// No storage connection could be had.
    PoolError,
    /// The confirmation mail could not be sent.
    EmailError,
    /// A required secret or setting is missing.
    EnvVar,
    /// The client's input was refused.
    AuthInput { field: ThresholdField, error: FieldError },
    /// The request body was not the JSON that was asked for.
    BadJson,
    /// The session token is missing, forged, expired or from another issuer.
    BadCookie,
}

/// The two classes of transport status.
#[derive(Debug, Clone, Copy, PartialEq, Eq, Structural)]
pub enum StatusClass {
    /// The client can mend the request.
    ClientError,
    /// The fault is on this side.
    ServerError,
}

/// An error of this library: a kind, and nothing else.
#[derive(Debug, Clone, Copy, PartialEq, Eq, Structural)]
pub struct PupilError {
    inner: PupilErrorKind,
}

/// What storage reported, as far as the classification reads it.
#[derive(Debug, Clone, PartialEq, Eq)]
pub enum StorageFailure {
    /// No connection could be had from the pool.
    NoConnection,
    /// The query matched no record.
    NotFound,
    /// A uniqueness rule refused the insert; the rule's name, if storage gave one.
    UniqueViolation { constraint: Option<String> },
    /// Anything else.
    Other,
}

/// The uniqueness rule on the email column.
pub open spec fn email_constraint() -> Seq<char> {
    "users_email_key"@
}

/// The uniqueness rule on the username column.
pub open spec fn username_constraint() -> Seq<char> {
    "users_username_key"@
}

/// The field and problem pairs that the flows can report: nothing but a
/// username or an email can be taken.
pub open spec fn can_occur(field: ThresholdField, error: FieldError) -> bool {
    error == FieldError::Invalid || field == ThresholdField::User || field
        == ThresholdField::Email
}

/// The message for a refused input.
pub open spec fn input_message(field: ThresholdField, error: FieldError) -> Seq<char> {
    match (field, error) {
        (ThresholdField::User, FieldError::Taken) => "That username is already taken."@,
        (ThresholdField::User, FieldError::Invalid) =>
            "That username is invalid. Usernames can only include alphanumeric characters and underscores and must be between 3 and 32 characters."@,
        (ThresholdField::Pass, FieldError::Invalid) =>
            "Passwords must be between 8 and 128 characters."@,
        (ThresholdField::Name, FieldError::Invalid) =>
            "Names must be between 4 and 128 characters."@,
        (ThresholdField::Email, FieldError::Taken) =>
            "That email is already assigned to another account. If that is your account, please login instead of creating a new account."@,
        (ThresholdField::Email, FieldError::Invalid) => "That email is not a valid email."@,
        (ThresholdField::UserOrPass, FieldError::Invalid) =>
            "Either the username or password is invalid. Please try again."@,
        _ => ""@,
    }
}

/// The one message of every failure on this side.
pub open spec fn server_message() -> Seq<char> {
    "The request failed. Please try again."@
}

/// The message that a client is shown for a kind.
pub open spec fn message_of(kind: PupilErrorKind) -> Seq<char> {
    match kind {
        PupilErrorKind::AuthInput { field, error } => input_message(field, error),
        PupilErrorKind::BadCookie => "Your authentication cookie has expired."@,
        PupilErrorKind::BadJson => "The request JSON was invalid."@,
        _ => server_message(),
    }
}

/// The status class of a kind.
pub open spec fn class_of(kind: PupilErrorKind) -> StatusClass {
    match kind {
        PupilErrorKind::AuthInput { .. } => StatusClass::ClientError,
        PupilErrorKind::BadJson => StatusClass::ClientError,
        PupilErrorKind::BadCookie => StatusClass::ClientError,
        _ => StatusClass::ServerError,
    }
}

/// The note shown to an account that waits for its confirmation.
pub open spec fn notice_of(kind: ThresholdKind) -> Seq<char> {
    match kind {
        ThresholdKind::Register =>
            "You are successfully registered! Please check your email and click on the link we sent to confirm your address."@,
        ThresholdKind::Login =>
            "Please check your email and confirm your email address before signing in."@,
    }
}

/// The kind that a storage failure is reported as. A uniqueness rule is told
/// by its name; one that is not known stays a storage failure.
pub open spec fn kind_of_failure(failure: StorageFailure) -> PupilErrorKind {
    match failure {
        StorageFailure::NoConnection => PupilErrorKind::PoolError,
        StorageFailure::NotFound => PupilErrorKind::AuthInput {
            field: ThresholdField::UserOrPass,
            error: FieldError::Invalid,
        },
        StorageFailure::UniqueViolation { constraint: Some(name) } => {
            if name@ == email_constraint() {
                PupilErrorKind::AuthInput {
                    field: ThresholdField::Email,
                    error: FieldError::Taken,
                }
            } else if name@ == username_constraint() {
                PupilErrorKind::AuthInput { field: ThresholdField::User, error: FieldError::Taken }
            } else {
                PupilErrorKind::DatabaseError
            }
        },
        _ => PupilErrorKind::DatabaseError,
    }
}

/// The body sent to a client: the message as one JSON string, or the bare
/// message where no JSON string could be made of it.
pub open spec fn body_of(kind: PupilErrorKind) -> Seq<char> {
    match json_quoted(message_of(kind)) {
        Some(body) => body,
        None => message_of(kind),
    }
}

impl ThresholdKind {
    /// The note for an account that waits for its confirmation.
    pub fn notice(&self) -> (text: &'static str)
        ensures
            text@ == notice_of(*self),
    {
        match self {
            ThresholdKind::Register =>
                "You are successfully registered! Please check your email and click on the link we sent to confirm your address.",
            ThresholdKind::Login =>
                "Please check your email and confirm your email address before signing in.",
        }
    }
}

impl PupilErrorKind {
    /// The refusal of one input field.
    pub fn input(field: ThresholdField, error: FieldError) -> (kind: PupilErrorKind)
        ensures
            kind == (PupilErrorKind::AuthInput { field, error }),
    {
        PupilErrorKind::AuthInput { field, error }
    }

    /// What a request body gave: the value that was read from it, or the
    /// refusal of a body that could not be read as the JSON that was asked
    /// for.
    pub fn from_body<T>(body: Option<T>) -> (read: Result<T, PupilErrorKind>)
        ensures
            read == match body {
                Some(value) => Ok::<T, PupilErrorKind>(value),
                None => Err::<T, PupilErrorKind>(PupilErrorKind::BadJson),
            },
    {
        match body {
            Some(value) => Ok(value),
            None => Err(PupilErrorKind::BadJson),
        }
    }

    /// The message that a client is shown.
    pub fn description(&self) -> (text: &'static str)
        ensures
            text@ == message_of(*self),
    {
        match self {
            PupilErrorKind::AuthInput { field, error } => match (field, error) {
                (ThresholdField::User, FieldError::Taken) => "That username is already taken.",
                (ThresholdField::User, FieldError::Invalid) =>
                    "That username is invalid. Usernames can only include alphanumeric characters and underscores and must be between 3 and 32 characters.",
                (ThresholdField::Pass, FieldError::Invalid) =>
                    "Passwords must be between 8 and 128 characters.",
                (ThresholdField::Name, FieldError::Invalid) =>
                    "Names must be between 4 and 128 characters.",
                (ThresholdField::Email, FieldError::Taken) =>
                    "That email is already assigned to another account. If that is your account, please login instead of creating a new account.",
                (ThresholdField::Email, FieldError::Invalid) => "That email is not a valid email.",
                (ThresholdField::UserOrPass, FieldError::Invalid) =>
                    "Either the username or password is invalid. Please try again.",
                _ => "",
            },
            PupilErrorKind::BadCookie => "Your authentication cookie has expired.",
            PupilErrorKind::BadJson => "The request JSON was invalid.",
            _ => "The request failed. Please try again.",
        }
    }

    /// The message as an owned string.
    pub fn to_string(&self) -> (text: String)
        ensures
            text@ == message_of(*self),
    {
        self.description().to_owned()
    }

    /// Whether the client or this side is at fault.
    pub fn status_class(&self) -> (class: StatusClass)
        ensures
            class == class_of(*self),
    {
        match self {
            PupilErrorKind::AuthInput { .. } => StatusClass::ClientError,
            PupilErrorKind::BadJson => StatusClass::ClientError,
            PupilErrorKind::BadCookie => StatusClass::ClientError,
            _ => StatusClass::ServerError,
        }
    }

    /// The kind that a storage failure is reported as.
    pub fn from_storage(failure: &StorageFailure) -> (kind: PupilErrorKind)
        ensures
            kind == kind_of_failure(*failure),
    {
        match failure {
            StorageFailure::NoConnection => PupilErrorKind::PoolError,
            StorageFailure::NotFound => PupilErrorKind::AuthInput {
                field: ThresholdField::UserOrPass,
                error: FieldError::Invalid,
            },
            StorageFailure::UniqueViolation { constraint: Some(name) } => {
                if str_eq(name.as_str(), "users_email_key") {
                    PupilErrorKind::AuthInput {
                        field: ThresholdField::Email,
                        error: FieldError::Taken,
                    }
                } else if str_eq(name.as_str(), "users_username_key") {
                    PupilErrorKind::AuthInput {
                        field: ThresholdField::User,
                        error: FieldError::Taken,
                    }
                } else {
                    PupilErrorKind::DatabaseError
                }
            },
            _ => PupilErrorKind::DatabaseError,
        }
    }
}

impl StatusClass {
    /// The status code that stands for the class.
    pub fn code(&self) -> (code: u16)
        ensures
            code == (if *self == StatusClass::ClientError { 400int } else { 500int }),
    {
        match self {
            StatusClass::ClientError => 400,
            StatusClass::ServerError => 500,
        }
    }
}

impl PupilError {
    /// The kind of this error.
    pub closed spec fn spec_kind(&self) -> PupilErrorKind {
        self.inner
    }

    /// The kind of this error.
    #[verifier::when_used_as_spec(spec_kind)]
    pub fn kind(&self) -> (kind: PupilErrorKind)
        ensures
            kind == self.spec_kind(),
    {
        self.inner
    }

    /// The error of a kind.
    pub closed spec fn of_kind(kind: PupilErrorKind) -> PupilError {
        PupilError { inner: kind }
    }

    /// The error of a kind.
    pub fn new(kind: PupilErrorKind) -> (error: PupilError)
        ensures
            error == PupilError::of_kind(kind),
            error.spec_kind() == kind,
    {
        PupilError { inner: kind }
    }

    /// The message that a client is shown.
    pub fn to_string(&self) -> (text: String)
        ensures
            text@ == message_of(self.spec_kind()),
    {
        self.inner.to_string()
    }

    /// Whether the client or this side is at fault.
    pub fn status_class(&self) -> (class: StatusClass)
        ensures
            class == class_of(self.spec_kind()),
    {
        self.inner.status_class()
    }

    /// The body sent to a client: the message as one JSON string.
    pub fn body(&self) -> (body: String)
        ensures
            body@ == body_of(self.spec_kind()),
    {
        let message = self.inner.description();
        match crate::text::to_json_string(message) {
            Some(body) => body,
            None => message.to_owned(),
        }
    }
}

impl From<PupilErrorKind> for PupilError {
    fn from(kind: PupilErrorKind) -> (error: PupilError) {
        PupilError { inner: kind }
    }
}

impl vstd::std_specs::convert::FromSpecImpl<PupilErrorKind> for PupilError {
    open spec fn obeys_from_spec() -> bool {
        true
    }

    open spec fn from_spec(kind: PupilErrorKind) -> PupilError {
        PupilError::of_kind(kind)
    }
}

/// Every kind that the flows can report has a message, and only the refusals
/// of input that cannot occur have none.
pub proof fn law_every_kind_has_a_message(kind: PupilErrorKind)
    ensures
        message_of(kind).len() == 0 <==> (kind matches PupilErrorKind::AuthInput { field, error }
            && !can_occur(field, error)),
{
    reveal_strlit("That username is already taken.");
    reveal_strlit(
        "That username is invalid. Usernames can only include alphanumeric characters and underscores and must be between 3 and 32 characters.",
    );
    reveal_strlit("Passwords must be between 8 and 128 characters.");
    reveal_strlit("Names must be between 4 and 128 characters.");
    reveal_strlit(
        "That email is already assigned to another account. If that is your account, please login instead of creating a new account.",
    );
    reveal_strlit("That email is not a valid email.");
    reveal_strlit("Either the username or password is invalid. Please try again.");
    reveal_strlit("Your authentication cookie has expired.");
    reveal_strlit("The request JSON was invalid.");
    reveal_strlit("The request failed. Please try again.");
    reveal_strlit("");
}

/// A failure on this side never shows which part failed: storage, pool, mail
/// and configuration share one message and one status class.
pub proof fn law_server_failures_look_alike(kind: PupilErrorKind)
    requires
        class_of(kind) == StatusClass::ServerError,
    ensures
        message_of(kind) == server_message(),
        kind == PupilErrorKind::DatabaseError || kind == PupilErrorKind::PoolError || kind
            == PupilErrorKind::EmailError || kind == PupilErrorKind::EnvVar,
{
}

/// A storage failure is never reported as an input that cannot occur, and a
/// uniqueness rule that is not known is never reported as a taken field.
pub proof fn law_storage_failures_classified(failure: StorageFailure)
    ensures
        kind_of_failure(failure) matches PupilErrorKind::AuthInput { field, error } ==> can_occur(
            field,
            error,
        ),
        (kind_of_failure(failure) matches PupilErrorKind::AuthInput { field, error } && error
            == FieldError::Taken) ==> (failure matches StorageFailure::UniqueViolation {
            constraint: Some(name),
        } && (name@ == email_constraint() || name@ == username_constraint())),
{
}

} // verus!
