use pupil_auth::error::{FieldError, PupilErrorKind, StorageFailure, ThresholdField, ThresholdKind};
use pupil_auth::flow::Outcome;
use pupil_auth::model::User;
use pupil_auth::passwd::{hash_with_salt, verify_password};
use pupil_auth::register::Register;
use pupil_auth::registration::{
    confirmation_mail, insert_failure_kind, mail_from, registration_step, registration_step_with,
    RegistrationAction, RegistrationEvent, RegistrationState,
};

const SALT: [u8; 64] = [9u8; 64];

fn form(name: &str, email: &str, username: &str) -> Register {
    Register {
        name: String::from(name),
        email: String::from(email),
        username: String::from(username),
        password: String::from("bad_pass"),
    }
}

fn submitted(form: Register) -> RegistrationEvent {
    RegistrationEvent::Submitted { form, secret: String::from("hash secret") }
}

fn step(
    state: RegistrationState,
    event: RegistrationEvent,
) -> (RegistrationState, RegistrationAction) {
    registration_step_with(state, event, &SALT, 5111, 1_500_000_000)
}

fn failed(kind: PupilErrorKind) -> (RegistrationState, RegistrationAction) {
    (RegistrationState::Done, RegistrationAction::Finish(Outcome::Failed(kind)))
}

fn stored(id: i32, form: &Register, pass: &str) -> User {
    User {
        id,
        name: form.name.clone(),
        email: form.email.clone(),
        username: form.username.clone(),
        pass: String::from(pass),
        conf: false,
    }
}

fn taken(field: ThresholdField) -> PupilErrorKind {
    PupilErrorKind::AuthInput { field, error: FieldError::Taken }
}

fn unique(name: &str) -> StorageFailure {
    StorageFailure::UniqueViolation { constraint: Some(String::from(name)) }
}

const BODY: &str = "<p>Thank-you for joining Pupil! To confirm your email address, please click the link below.</p>

            <a href=\"4ZQ\">Confirm email address</a> (4ZQ)

            <p>Thanks again,<p>

            <p>Cole Graber-Mitchell and Madhav Singh, <\\ br>
            Founders of Pupil</p>
            ";

#[test]
fn register_new() {
    let new = form("Diff Perse", "dperse@website.com", "dperse");
    let hash = hash_with_salt("dperse", "bad_pass", "hash secret", &SALT).unwrap();

    let (state, action) = step(RegistrationState::Start, submitted(new.clone()));
    assert_eq!(
        state,
        RegistrationState::InsertingUser { email: String::from("dperse@website.com") }
    );
    assert_eq!(
        action,
        RegistrationAction::InsertUser {
            name: String::from("Diff Perse"),
            email: String::from("dperse@website.com"),
            username: String::from("dperse"),
            pass: hash.clone(),
        }
    );
    assert!(verify_password(&hash, "bad_pass"));

    let (state, action) = step(state, RegistrationEvent::UserStored(Ok(stored(3, &new, &hash))));
    assert_eq!(
        state,
        RegistrationState::StoringLink {
            email: String::from("dperse@website.com"),
            link: String::from("4ZQ"),
        }
    );
    assert_eq!(
        action,
        RegistrationAction::StoreLink {
            created: 1_500_000_000,
            userid: 3,
            username: String::from("dperse"),
            link: String::from("4ZQ"),
        }
    );

    let (state, action) = step(state, RegistrationEvent::LinkStored(Ok(())));
    assert_eq!(state, RegistrationState::SendingMail);
    assert_eq!(
        action,
        RegistrationAction::SendMail {
            to: String::from("dperse@website.com"),
            body: String::from(BODY),
        }
    );

    let (state, action) = step(state, RegistrationEvent::MailSent(true));
    assert_eq!(state, RegistrationState::Done);
    assert_eq!(
        action,
        RegistrationAction::Finish(Outcome::Pending(ThresholdKind::Register))
    );
    assert_eq!(
        ThresholdKind::Register.notice(),
        "You are successfully registered! Please check your email and click on \
         the link we sent to confirm your address."
    );
}

#[test]
fn register_good() {
    let new = form("Diff Perse", "dperse@website.com", "dperse");
    let (state, action) = registration_step(RegistrationState::Start, submitted(new.clone()));
    let hash = match action {
        RegistrationAction::InsertUser { name, email, username, pass } => {
            assert_eq!((name, email, username), (new.name.clone(), new.email.clone(), new.username.clone()));
            pass
        }
        other => panic!("{:?}", other),
    };
    assert!(verify_password(&hash, "bad_pass"));
    assert!(!verify_password(&hash, "bad_pass2"));
    let (state, action) =
        registration_step(state, RegistrationEvent::UserStored(Ok(stored(3, &new, &hash))));
    let link = match action {
        RegistrationAction::StoreLink { created, userid, username, link } => {
            assert!(created > 1_492_907_635);
            assert_eq!((userid, username.as_str()), (3, "dperse"));
            link
        }
        other => panic!("{:?}", other),
    };
    assert_eq!(
        state,
        RegistrationState::StoringLink { email: new.email.clone(), link: link.clone() }
    );
    let (state, action) = registration_step(state, RegistrationEvent::LinkStored(Ok(())));
    assert_eq!(
        action,
        RegistrationAction::SendMail { to: new.email.clone(), body: confirmation_mail(&link) }
    );
    assert_eq!(
        registration_step(state, RegistrationEvent::MailSent(true)),
        (
            RegistrationState::Done,
            RegistrationAction::Finish(Outcome::Pending(ThresholdKind::Register))
        )
    );
}

#[test]
fn register_bad() {
    let invalid = |field| {
        failed(PupilErrorKind::AuthInput { field, error: FieldError::Invalid })
    };
    assert_eq!(
        step(RegistrationState::Start, submitted(form("Bob", "bob@website.com", "bobby"))),
        invalid(ThresholdField::Name)
    );
    assert_eq!(
        step(RegistrationState::Start, submitted(form("Bobby", "bob", "bobby"))),
        invalid(ThresholdField::Email)
    );
    assert_eq!(
        step(RegistrationState::Start, submitted(form("Bobby", "bob@website.com", "b!"))),
        invalid(ThresholdField::User)
    );
    let mut short = form("Bobby", "bob@website.com", "bobby");
    short.password = String::from("short");
    assert_eq!(step(RegistrationState::Start, submitted(short)), invalid(ThresholdField::Pass));
}

#[test]
fn register_error() {
    let inserting = || RegistrationState::InsertingUser { email: String::from("a@b.c") };
    let storing = || RegistrationState::StoringLink {
        email: String::from("a@b.c"),
        link: String::from("4ZQ"),
    };
    assert_eq!(
        step(inserting(), RegistrationEvent::UserStored(Err(StorageFailure::Other))),
        failed(PupilErrorKind::DatabaseError)
    );
    assert_eq!(
        step(inserting(), RegistrationEvent::UserStored(Err(StorageFailure::NotFound))),
        failed(PupilErrorKind::DatabaseError)
    );
    assert_eq!(
        step(inserting(), RegistrationEvent::UserStored(Err(StorageFailure::NoConnection))),
        failed(PupilErrorKind::PoolError)
    );
    assert_eq!(
        step(inserting(), RegistrationEvent::UserStored(Err(unique("users_pkey")))),
        failed(PupilErrorKind::DatabaseError)
    );
    assert_eq!(
        step(storing(), RegistrationEvent::LinkStored(Err(StorageFailure::Other))),
        failed(PupilErrorKind::DatabaseError)
    );
    assert_eq!(
        step(storing(), RegistrationEvent::LinkStored(Err(StorageFailure::NoConnection))),
        failed(PupilErrorKind::PoolError)
    );
    assert_eq!(
        step(RegistrationState::SendingMail, RegistrationEvent::MailSent(false)),
        failed(PupilErrorKind::EmailError)
    );
}

#[test]
fn register_email_existing() {
    let register = form("Jane Doe", "jdoe@website.com", "jdoe2");
    let (state, action) = step(RegistrationState::Start, submitted(register));
    assert!(matches!(action, RegistrationAction::InsertUser { .. }));
    let (state, action) =
        step(state, RegistrationEvent::UserStored(Err(unique("users_email_key"))));
    assert_eq!((state, action), failed(taken(ThresholdField::Email)));
    assert_eq!(
        pupil_auth::error::PupilError::from(taken(ThresholdField::Email)).body(),
        serde_json::to_string(taken(ThresholdField::Email).description()).unwrap()
    );
    assert_eq!(taken(ThresholdField::Email).status_class().code(), 400);
}

#[test]
fn register_username_existing() {
    let register = form("Jane Doe", "jdoe2@website.com", "jdoe");
    let (state, action) = step(RegistrationState::Start, submitted(register));
    assert!(matches!(action, RegistrationAction::InsertUser { .. }));
    let (state, action) =
        step(state, RegistrationEvent::UserStored(Err(unique("users_username_key"))));
    assert_eq!((state, action), failed(taken(ThresholdField::User)));
    assert_eq!(
        pupil_auth::error::PupilError::from(taken(ThresholdField::User)).body(),
        serde_json::to_string(taken(ThresholdField::User).description()).unwrap()
    );
}

#[test]
fn secret_that_cannot_be_used() {
    let event = RegistrationEvent::Submitted {
        form: form("Diff Perse", "dperse@website.com", "dperse"),
        secret: "s".repeat(33),
    };
    assert_eq!(step(RegistrationState::Start, event), failed(PupilErrorKind::EnvVar));
}

#[test]
fn events_out_of_turn_are_dropped() {
    let nothing = |state: RegistrationState| (state, RegistrationAction::Nothing);
    assert_eq!(
        step(RegistrationState::Start, RegistrationEvent::MailSent(true)),
        nothing(RegistrationState::Start)
    );
    assert_eq!(
        step(RegistrationState::Start, RegistrationEvent::LinkStored(Ok(()))),
        nothing(RegistrationState::Start)
    );
    assert_eq!(
        step(RegistrationState::SendingMail, RegistrationEvent::LinkStored(Ok(()))),
        nothing(RegistrationState::SendingMail)
    );
    assert_eq!(
        step(
            RegistrationState::Done,
            submitted(form("Diff Perse", "dperse@website.com", "dperse"))
        ),
        nothing(RegistrationState::Done)
    );
    assert_eq!(
        step(RegistrationState::Done, RegistrationEvent::MailSent(true)),
        nothing(RegistrationState::Done)
    );
    let inserting = RegistrationState::InsertingUser { email: String::from("a@b.c") };
    assert_eq!(
        step(inserting.clone(), RegistrationEvent::MailSent(true)),
        nothing(inserting)
    );
}

#[test]
fn records_of_the_actions() {
    let insert = RegistrationAction::InsertUser {
        name: String::from("Diff Perse"),
        email: String::from("dperse@website.com"),
        username: String::from("dperse"),
        pass: String::from("hash"),
    };
    assert_eq!(
        insert.new_user(),
        Some(pupil_auth::model::NewUser {
            name: "Diff Perse",
            email: "dperse@website.com",
            username: "dperse",
            pass: "hash",
        })
    );
    assert_eq!(insert.new_conf(), None);
    let store = RegistrationAction::StoreLink {
        created: 12,
        userid: 3,
        username: String::from("dperse"),
        link: String::from("4ZQ"),
    };
    assert_eq!(
        store.new_conf(),
        Some(pupil_auth::model::NewConf { created: 12, userid: 3, username: "dperse", link: "4ZQ" })
    );
    assert_eq!(store.new_user(), None);
    assert_eq!(RegistrationAction::Nothing.new_user(), None);
}

#[test]
fn mail_of_a_link() {
    assert_eq!(confirmation_mail("4ZQ"), BODY);
    assert_eq!(mail_from(), "founders@usepupil.us");
    assert_eq!(confirmation_mail("").matches("href=\"\"").count(), 1);
}

#[test]
fn kinds_of_failed_inserts() {
    assert_eq!(insert_failure_kind(&unique("users_email_key")), taken(ThresholdField::Email));
    assert_eq!(insert_failure_kind(&unique("users_username_key")), taken(ThresholdField::User));
    assert_eq!(insert_failure_kind(&StorageFailure::NotFound), PupilErrorKind::DatabaseError);
    assert_eq!(
        insert_failure_kind(&StorageFailure::UniqueViolation { constraint: None }),
        PupilErrorKind::DatabaseError
    );
}
