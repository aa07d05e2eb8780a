use pupil_auth::error::{
    FieldError, PupilError, PupilErrorKind, StatusClass, StorageFailure, ThresholdField,
    ThresholdKind,
};

const FIELDS: [ThresholdField; 5] = [
    ThresholdField::User,
    ThresholdField::Pass,
    ThresholdField::Name,
    ThresholdField::Email,
    ThresholdField::UserOrPass,
];

fn input(field: ThresholdField, error: FieldError) -> PupilErrorKind {
    PupilErrorKind::AuthInput { field, error }
}

#[test]
fn messages_of_refused_input() {
    assert_eq!(
        input(ThresholdField::User, FieldError::Taken).to_string(),
        "That username is already taken."
    );
    assert_eq!(
        input(ThresholdField::User, FieldError::Invalid).to_string(),
        "That username is invalid. Usernames can only include alphanumeric \
         characters and underscores and must be between 3 and 32 characters."
    );
    assert_eq!(
        input(ThresholdField::Pass, FieldError::Invalid).to_string(),
        "Passwords must be between 8 and 128 characters."
    );
    assert_eq!(
        input(ThresholdField::Name, FieldError::Invalid).to_string(),
        "Names must be between 4 and 128 characters."
    );
    assert_eq!(
        input(ThresholdField::Email, FieldError::Taken).to_string(),
        "That email is already assigned to another account. If that is your \
         account, please login instead of creating a new account."
    );
    assert_eq!(
        input(ThresholdField::Email, FieldError::Invalid).to_string(),
        "That email is not a valid email."
    );
    assert_eq!(
        input(ThresholdField::UserOrPass, FieldError::Invalid).to_string(),
        "Either the username or password is invalid. Please try again."
    );
    assert_eq!(input(ThresholdField::Pass, FieldError::Taken).to_string(), "");
    assert_eq!(input(ThresholdField::Name, FieldError::Taken).to_string(), "");
    assert_eq!(input(ThresholdField::UserOrPass, FieldError::Taken).to_string(), "");
    assert_eq!(
        PupilErrorKind::input(ThresholdField::Name, FieldError::Invalid),
        input(ThresholdField::Name, FieldError::Invalid)
    );
}

#[test]
fn messages_of_the_other_kinds() {
    assert_eq!(
        PupilErrorKind::BadCookie.to_string(),
        "Your authentication cookie has expired."
    );
    assert_eq!(PupilErrorKind::BadJson.to_string(), "The request JSON was invalid.");
    for kind in [
        PupilErrorKind::DatabaseError,
        PupilErrorKind::PoolError,
        PupilErrorKind::EmailError,
        PupilErrorKind::EnvVar,
    ] {
        assert_eq!(kind.to_string(), "The request failed. Please try again.");
        assert_eq!(kind.description(), "The request failed. Please try again.");
        assert_eq!(kind.status_class(), StatusClass::ServerError);
    }
}

#[test]
fn status_classes() {
    for field in FIELDS {
        for error in [FieldError::Taken, FieldError::Invalid] {
            assert_eq!(input(field, error).status_class(), StatusClass::ClientError);
        }
    }
    assert_eq!(PupilErrorKind::BadJson.status_class(), StatusClass::ClientError);
    assert_eq!(PupilErrorKind::BadCookie.status_class(), StatusClass::ClientError);
    assert_eq!(StatusClass::ClientError.code(), 400);
    assert_eq!(StatusClass::ServerError.code(), 500);
}

#[test]
fn every_kind_that_occurs_has_a_message() {
    for field in FIELDS {
        for error in [FieldError::Taken, FieldError::Invalid] {
            let occurs = error == FieldError::Invalid
                || field == ThresholdField::User
                || field == ThresholdField::Email;
            assert_eq!(input(field, error).description().is_empty(), !occurs);
        }
    }
}

#[test]
fn notices() {
    assert_eq!(
        ThresholdKind::Register.notice(),
        "You are successfully registered! Please check your email and click on \
         the link we sent to confirm your address."
    );
    assert_eq!(
        ThresholdKind::Login.notice(),
        "Please check your email and confirm your email address before signing in."
    );
}

#[test]
fn storage_failures_are_classified() {
    let unique = |name: Option<&str>| StorageFailure::UniqueViolation {
        constraint: name.map(String::from),
    };
    assert_eq!(
        PupilErrorKind::from_storage(&unique(Some("users_email_key"))),
        input(ThresholdField::Email, FieldError::Taken)
    );
    assert_eq!(
        PupilErrorKind::from_storage(&unique(Some("users_username_key"))),
        input(ThresholdField::User, FieldError::Taken)
    );
    assert_eq!(
        PupilErrorKind::from_storage(&unique(Some("conf_link_key"))),
        PupilErrorKind::DatabaseError
    );
    assert_eq!(
        PupilErrorKind::from_storage(&unique(Some("users_email_key "))),
        PupilErrorKind::DatabaseError
    );
    assert_eq!(
        PupilErrorKind::from_storage(&unique(None)),
        PupilErrorKind::DatabaseError
    );
    assert_eq!(
        PupilErrorKind::from_storage(&StorageFailure::NotFound),
        input(ThresholdField::UserOrPass, FieldError::Invalid)
    );
    assert_eq!(
        PupilErrorKind::from_storage(&StorageFailure::NoConnection),
        PupilErrorKind::PoolError
    );
    assert_eq!(
        PupilErrorKind::from_storage(&StorageFailure::Other),
        PupilErrorKind::DatabaseError
    );
}

#[test]
fn error_carries_its_kind() {
    let kind = input(ThresholdField::Email, FieldError::Taken);
    let error = PupilError::from(kind);
    assert_eq!(error.kind(), kind);
    assert_eq!(PupilError::new(kind), error);
    assert_eq!(error.to_string(), kind.to_string());
    assert_eq!(error.status_class(), StatusClass::ClientError);
    assert_eq!(PupilError::from(PupilErrorKind::PoolError).kind(), PupilErrorKind::PoolError);
}

#[test]
fn body_is_the_message_as_a_json_string() {
    assert_eq!(
        PupilError::from(PupilErrorKind::BadCookie).body(),
        "\"Your authentication cookie has expired.\""
    );
    assert_eq!(
        PupilError::from(PupilErrorKind::EnvVar).body(),
        "\"The request failed. Please try again.\""
    );
    let kind = input(ThresholdField::Email, FieldError::Taken);
    assert_eq!(
        PupilError::from(kind).body(),
        serde_json::to_string(kind.description()).unwrap()
    );
    assert_eq!(
        PupilError::from(input(ThresholdField::Pass, FieldError::Taken)).body(),
        "\"\""
    );
}

#[test]
fn body_that_could_not_be_read() {
    assert_eq!(PupilErrorKind::from_body(Some(5)), Ok(5));
    assert_eq!(PupilErrorKind::from_body::<u8>(None), Err(PupilErrorKind::BadJson));
}
