//! The registration flow as a state machine: each step takes what the
//! caller's last action brought and says what to do next. The caller stores
//! and sends; the decisions are made here.

use crate::error::{
    kind_of_failure, FieldError, PupilErrorKind, StorageFailure, ThresholdField, ThresholdKind,
};
use crate::flow::{Outcome, OutcomeView};
use crate::link::{base32_text, link_for};
use crate::model::{NewConf, NewUser, User};
use crate::passwd::{hash_with_salt, hashed, SALT_LENGTH};
use crate::register::{address_parses, verdict_of, Register};
use crate::text::{random_bytes, random_u64};
use crate::token::unix_now;
use vstd::prelude::*;
use vstd::string::*;

verus! {

/// Where a registration stands.
#[derive(Debug, Clone, PartialEq, Eq)]
pub enum RegistrationState {
    /// Nothing was submitted yet.
    Start,
    /// The account is with storage; the address is kept for the mail.
    InsertingUser { email: String },
    /// The confirmation record is with storage.
    StoringLink { email: String, link: String },
    /// The confirmation mail is with the mailer.
    SendingMail,
    /// The registration has ended.
    Done,
}

/// What the caller's last action brought. A submitted form comes with a
/// password and a secret: the type cannot be printed.
#[derive(PartialEq, Eq)]
pub enum RegistrationEvent {
    /// A form came in, with the secret that passwords are hashed under.
    Submitted { form: Register, secret: String },
    /// Storage answered the insert of the account.
    UserStored(Result<User, StorageFailure>),
    /// Storage answered the insert of the confirmation record.
    LinkStored(Result<(), StorageFailure>),
    /// The mailer answered: whether the mail was sent.
    MailSent(bool),
}

/// What the caller has to do next.
#[derive(Debug, Clone, PartialEq, Eq)]
pub enum RegistrationAction {
    /// Store the account; `pass` is the password hash.
    InsertUser { name: String, email: String, username: String, pass: String },
    /// Store the confirmation record.
    StoreLink { created: i64, userid: i32, username: String, link: String },
    /// Send the confirmation mail.
    SendMail { to: String, body: String },
    /// Report the outcome; nothing else is left to do.
    Finish(Outcome),
    /// The event does not belong to the state: drop it.
    Nothing,
}

/// What a state is.
pub enum StateView {
    Start,
    InsertingUser { email: Seq<char> },
    StoringLink { email: Seq<char>, link: Seq<char> },
    SendingMail,
    Done,
}

/// What an action is.
pub enum ActionView {
    InsertUser { name: Seq<char>, email: Seq<char>, username: Seq<char>, pass: Seq<char> },
    StoreLink { created: int, userid: int, username: Seq<char>, link: Seq<char> },
    SendMail { to: Seq<char>, body: Seq<char> },
    Finish(OutcomeView),
    Nothing,
}

impl View for RegistrationState {
    type V = StateView;

    open spec fn view(&self) -> StateView {
        match self {
            RegistrationState::Start => StateView::Start,
            RegistrationState::InsertingUser { email } => StateView::InsertingUser {
                email: email@,
            },
            RegistrationState::StoringLink { email, link } => StateView::StoringLink {
                email: email@,
                link: link@,
            },
            RegistrationState::SendingMail => StateView::SendingMail,
            RegistrationState::Done => StateView::Done,
        }
    }
}

impl View for RegistrationAction {
    type V = ActionView;

    open spec fn view(&self) -> ActionView {
        match self {
            RegistrationAction::InsertUser { name, email, username, pass } => ActionView::InsertUser {
                name: name@,
                email: email@,
                username: username@,
                pass: pass@,
            },
            RegistrationAction::StoreLink { created, userid, username, link } => ActionView::StoreLink {
                created: *created as int,
                userid: *userid as int,
                username: username@,
                link: link@,
            },
            RegistrationAction::SendMail { to, body } => ActionView::SendMail {
                to: to@,
                body: body@,
            },
            RegistrationAction::Finish(outcome) => ActionView::Finish(outcome@),
            RegistrationAction::Nothing => ActionView::Nothing,
        }
    }
}

/// The address that the confirmation mail comes from.
pub open spec fn sender() -> Seq<char> {
    "founders@usepupil.us"@
}

/// The body of the confirmation mail for a link token: a fixed piece of
/// HTML that holds the token twice.
pub open spec fn mail_body(link: Seq<char>) -> Seq<char> {
    "<p>Thank-you for joining Pupil! To confirm your email address, please click the link below.</p>\n\n            <a href=\""@
        + link + "\">Confirm email address</a> ("@ + link
        + ")\n\n            <p>Thanks again,<p>\n\n            <p>Cole Graber-Mitchell and Madhav Singh, <\\ br>\n            Founders of Pupil</p>\n            "@
}

/// The kind that a failed insert is reported as: a uniqueness rule by its
/// name, a missing connection as such, and anything else as a storage
/// failure.
pub open spec fn kind_of_insert_failure(failure: StorageFailure) -> PupilErrorKind {
    match failure {
        StorageFailure::NotFound => PupilErrorKind::DatabaseError,
        _ => kind_of_failure(failure),
    }
}

/// The end of a registration with a failure.
pub open spec fn failed(kind: PupilErrorKind) -> (StateView, ActionView) {
    (StateView::Done, ActionView::Finish(OutcomeView::Failed(kind)))
}

/// What a form leads to: the first broken rule ends the registration before
/// anything is hashed or stored; a password that cannot be hashed under the
/// secret ends it as a fault of the configuration; else the account goes to
/// storage with the hash of its password.
pub open spec fn on_submitted(form: Register, secret: Seq<char>, salt: Seq<u8>) -> (
    StateView,
    ActionView,
) {
    match verdict_of(form, address_parses(form.email@)) {
        Err(kind) => failed(kind),
        Ok(_) => match hashed(form.username@, form.password@, secret, salt) {
            None => failed(PupilErrorKind::EnvVar),
            Some(hash) => (
                StateView::InsertingUser { email: form.email@ },
                ActionView::InsertUser {
                    name: form.name@,
                    email: form.email@,
                    username: form.username@,
                    pass: hash,
                },
            ),
        },
    }
}

/// The step of the registration: the next state and the action for a state
/// and an event, given the salt, the random number and the second that the
/// step may use.
pub open spec fn next(
    state: RegistrationState,
    event: RegistrationEvent,
    salt: Seq<u8>,
    number: u64,
    now: int,
) -> (StateView, ActionView) {
    match (state, event) {
        (RegistrationState::Start, RegistrationEvent::Submitted { form, secret }) => on_submitted(
            form,
            secret@,
            salt,
        ),
        (RegistrationState::InsertingUser { email }, RegistrationEvent::UserStored(Ok(user))) => (
            StateView::StoringLink { email: email@, link: base32_text(number as nat) },
            ActionView::StoreLink {
                created: now,
                userid: user.id as int,
                username: user.username@,
                link: base32_text(number as nat),
            },
        ),
        (
            RegistrationState::InsertingUser { email },
            RegistrationEvent::UserStored(Err(failure)),
        ) => failed(kind_of_insert_failure(failure)),
        (RegistrationState::StoringLink { email, link }, RegistrationEvent::LinkStored(Ok(_))) => (
            StateView::SendingMail,
            ActionView::SendMail { to: email@, body: mail_body(link@) },
        ),
        (
            RegistrationState::StoringLink { email, link },
            RegistrationEvent::LinkStored(Err(failure)),
        ) => failed(kind_of_insert_failure(failure)),
        (RegistrationState::SendingMail, RegistrationEvent::MailSent(sent)) => if sent {
            (
                StateView::Done,
                ActionView::Finish(OutcomeView::Pending(ThresholdKind::Register)),
            )
        } else {
            failed(PupilErrorKind::EmailError)
        },
        _ => (state@, ActionView::Nothing),
    }
}

impl RegistrationAction {
    /// The account to store, where that is what the action asks for.
    pub fn new_user(&self) -> (record: Option<NewUser<'_>>)
        ensures
            match *self {
                RegistrationAction::InsertUser { name, email, username, pass } => record
                    matches Some(r) && r.name@ == name@ && r.email@ == email@ && r.username@
                    == username@ && r.pass@ == pass@,
                _ => record.is_none(),
            },
    {
        match self {
            RegistrationAction::InsertUser { name, email, username, pass } => Some(
                NewUser {
                    name: name.as_str(),
                    email: email.as_str(),
                    username: username.as_str(),
                    pass: pass.as_str(),
                },
            ),
            _ => None,
        }
    }

    /// The confirmation record to store, where that is what the action asks
    /// for.
    pub fn new_conf(&self) -> (record: Option<NewConf<'_>>)
        ensures
            match *self {
                RegistrationAction::StoreLink { created, userid, username, link } => record
                    matches Some(r) && r.created == created && r.userid == userid && r.username@
                    == username@ && r.link@ == link@,
                _ => record.is_none(),
            },
    {
        match self {
            RegistrationAction::StoreLink { created, userid, username, link } => Some(
                NewConf {
                    created: *created,
                    userid: *userid,
                    username: username.as_str(),
                    link: link.as_str(),
                },
            ),
            _ => None,
        }
    }
}

/// The address that the confirmation mail comes from.
pub fn mail_from() -> (address: &'static str)
    ensures
        address@ == sender(),
{
    "founders@usepupil.us"
}

/// The body of the confirmation mail for a link token.
pub fn confirmation_mail(link: &str) -> (body: String)
    ensures
        body@ == mail_body(link@),
{
    let mut body =
        "<p>Thank-you for joining Pupil! To confirm your email address, please click the link below.</p>\n\n            <a href=\"".to_owned();
    body.append(link);
    body.append("\">Confirm email address</a> (");
    body.append(link);
    body.append(
        ")\n\n            <p>Thanks again,<p>\n\n            <p>Cole Graber-Mitchell and Madhav Singh, <\\ br>\n            Founders of Pupil</p>\n            ",
    );
    body
}

/// The kind that a failed insert is reported as.
pub fn insert_failure_kind(failure: &StorageFailure) -> (kind: PupilErrorKind)
    ensures
        kind == kind_of_insert_failure(*failure),
{
    match failure {
        StorageFailure::NotFound => PupilErrorKind::DatabaseError,
        _ => PupilErrorKind::from_storage(failure),
    }
}

fn fail(kind: PupilErrorKind) -> (step: (RegistrationState, RegistrationAction))
    ensures
        (step.0@, step.1@) == failed(kind),
{
    (RegistrationState::Done, RegistrationAction::Finish(Outcome::Failed(kind)))
}

fn submitted(form: Register, secret: &str, salt: &[u8]) -> (step: (
    RegistrationState,
    RegistrationAction,
))
    ensures
        (step.0@, step.1@) == on_submitted(form, secret@, salt@),
{
    match form.validate() {
        Err(kind) => fail(kind),
        Ok(_) => match hash_with_salt(
            form.username.as_str(),
            form.password.as_str(),
            secret,
            salt,
        ) {
            None => fail(PupilErrorKind::EnvVar),
            Some(hash) => (
                RegistrationState::InsertingUser { email: form.email.clone() },
                RegistrationAction::InsertUser {
                    name: form.name,
                    email: form.email,
                    username: form.username,
                    pass: hash,
                },
            ),
        },
    }
}

/// One step of the registration, with the salt, the random number and the
/// second that the step may use.
pub fn registration_step_with(
    state: RegistrationState,
    event: RegistrationEvent,
    salt: &[u8],
    number: u64,
    now: i64,
) -> (step: (RegistrationState, RegistrationAction))
    ensures
        (step.0@, step.1@) == next(state, event, salt@, number, now as int),
{
    match (state, event) {
        (RegistrationState::Start, RegistrationEvent::Submitted { form, secret }) => submitted(
            form,
            secret.as_str(),
            salt,
        ),
        (RegistrationState::InsertingUser { email }, RegistrationEvent::UserStored(Ok(user))) => {
            let link = link_for(number);
            (
                RegistrationState::StoringLink { email, link: link.clone() },
                RegistrationAction::StoreLink {
                    created: now,
                    userid: user.id,
                    username: user.username,
                    link,
                },
            )
        },
        (
            RegistrationState::InsertingUser { email },
            RegistrationEvent::UserStored(Err(failure)),
        ) => fail(insert_failure_kind(&failure)),
        (RegistrationState::StoringLink { email, link }, RegistrationEvent::LinkStored(Ok(_))) => {
            let body = confirmation_mail(link.as_str());
            (RegistrationState::SendingMail, RegistrationAction::SendMail { to: email, body })
        },
        (
            RegistrationState::StoringLink { email, link },
            RegistrationEvent::LinkStored(Err(failure)),
        ) => fail(insert_failure_kind(&failure)),
        (RegistrationState::SendingMail, RegistrationEvent::MailSent(sent)) => {
            if sent {
                (
                    RegistrationState::Done,
                    RegistrationAction::Finish(Outcome::Pending(ThresholdKind::Register)),
                )
            } else {
                fail(PupilErrorKind::EmailError)
            }
        },
        (state, _) => (state, RegistrationAction::Nothing),
    }
}

/// One step of the registration, with a fresh salt, a fresh random number
/// and the present second.
pub fn registration_step(state: RegistrationState, event: RegistrationEvent) -> (step: (
    RegistrationState,
    RegistrationAction,
))
    ensures
        exists|salt: Seq<u8>, number: u64, now: int|
            salt.len() == SALT_LENGTH && (step.0@, step.1@) == #[trigger] next(
                state,
                event,
                salt,
                number,
                now,
            ),
{
    let salt = random_bytes(SALT_LENGTH);
    let number = random_u64();
    let now = unix_now();
    let step = registration_step_with(state, event, salt.as_slice(), number, now);
    assert((step.0@, step.1@) == next(state, event, salt@, number, now as int));
    step
}

/// A form that breaks a rule ends the registration at once with the first
/// broken rule: nothing is hashed, stored or sent.
pub proof fn law_invalid_form_ends_at_once(
    form: Register,
    secret: String,
    salt: Seq<u8>,
    number: u64,
    now: int,
)
    requires
        verdict_of(form, address_parses(form.email@)) is Err,
    ensures
        next(
            RegistrationState::Start,
            RegistrationEvent::Submitted { form, secret },
            salt,
            number,
            now,
        ) == failed(verdict_of(form, address_parses(form.email@))->Err_0),
{
}

/// A registration succeeds at one place only: the mail was sent. The mail
/// is sent at one place only: the confirmation record was stored. The record
/// is stored at one place only: the account was stored. The account is
/// stored at one place only: a form was accepted at the start.
pub proof fn law_registration_keeps_its_order(
    state: RegistrationState,
    event: RegistrationEvent,
    salt: Seq<u8>,
    number: u64,
    now: int,
)
    ensures
        next(state, event, salt, number, now).1 is Finish && next(
            state,
            event,
            salt,
            number,
            now,
        ).1->Finish_0 is Pending ==> state is SendingMail && event == RegistrationEvent::MailSent(
            true,
        ),
        next(state, event, salt, number, now).1 is SendMail ==> state is StoringLink && (
        event matches RegistrationEvent::LinkStored(answer) && answer is Ok),
        next(state, event, salt, number, now).1 is StoreLink ==> state is InsertingUser && (
        event matches RegistrationEvent::UserStored(answer) && answer is Ok),
        next(state, event, salt, number, now).1 is InsertUser ==> state is Start && (
        event matches RegistrationEvent::Submitted { form, .. } && verdict_of(
            form,
            address_parses(form.email@),
        ) is Ok),
        !(next(state, event, salt, number, now).1 is Finish && next(
            state,
            event,
            salt,
            number,
            now,
        ).1->Finish_0 is Session),
{
}

/// Once a registration has ended, no event moves it again.
pub proof fn law_done_is_final(event: RegistrationEvent, salt: Seq<u8>, number: u64, now: int)
    ensures
        next(RegistrationState::Done, event, salt, number, now) == (
            StateView::Done,
            ActionView::Nothing,
        ),
{
}

/// An account whose email or username is taken is told so, by the name of
/// the uniqueness rule that refused it.
pub proof fn law_taken_fields_are_named(
    email: String,
    constraint: String,
    salt: Seq<u8>,
    number: u64,
    now: int,
)
    ensures
        ({
            let step = next(
                RegistrationState::InsertingUser { email },
                RegistrationEvent::UserStored(
                    Err(StorageFailure::UniqueViolation { constraint: Some(constraint) }),
                ),
                salt,
                number,
                now,
            );
            if constraint@ == "users_email_key"@ {
                step == failed(
                    PupilErrorKind::AuthInput {
                        field: ThresholdField::Email,
                        error: FieldError::Taken,
                    },
                )
            } else if constraint@ == "users_username_key"@ {
                step == failed(
                    PupilErrorKind::AuthInput {
                        field: ThresholdField::User,
                        error: FieldError::Taken,
                    },
                )
            } else {
                step == failed(PupilErrorKind::DatabaseError)
            }
        }),
{
}

} // verus!
