//! The decisions of the login flow and of the session check: what storage
//! found goes in, what the caller has to do comes out.

use crate::claims::{jwt_claims, jwt_text};
use crate::error::{
    kind_of_failure, FieldError, PupilErrorKind, StorageFailure, ThresholdField, ThresholdKind,
};
use crate::model::{Conf, Login, SafeUser, User};
use crate::passwd::{password_matches, verify_password};
use crate::text::str_eq;
use crate::token::{
    accepted, claims_of, issued, issuer, unix_now, validate_at, Claims, UserToken, ISSUE_MAX,
};
use vstd::prelude::*;
use vstd::string::*;

verus! {

/// How a flow ended.
#[derive(Debug, Clone, PartialEq, Eq)]
pub enum Outcome {
    /// Signed in: the token that the caller sets as the session.
    Session(String),
    /// The account waits for the confirmation of its email address: no
    /// session is handed out.
    Pending(ThresholdKind),
    /// The flow failed.
    Failed(PupilErrorKind),
}

/// What the end of a flow is.
pub enum OutcomeView {
    Session(Seq<char>),
    Pending(ThresholdKind),
    Failed(PupilErrorKind),
}

impl View for Outcome {
    type V = OutcomeView;

    open spec fn view(&self) -> OutcomeView {
        match self {
            Outcome::Session(token) => OutcomeView::Session(token@),
            Outcome::Pending(kind) => OutcomeView::Pending(*kind),
            Outcome::Failed(kind) => OutcomeView::Failed(*kind),
        }
    }
}

/// What the session check found.
#[derive(Debug, PartialEq, Eq)]
pub struct SessionCheck {
    /// The user of the session, or why there is none.
    pub user: Result<SafeUser, PupilErrorKind>,
    /// Whether the caller has to drop the token that it was handed.
    pub forget_cookie: bool,
}

/// The refusal of a login: it never tells whether the username or the
/// password was wrong.
pub open spec fn bad_credentials() -> PupilErrorKind {
    PupilErrorKind::AuthInput { field: ThresholdField::UserOrPass, error: FieldError::Invalid }
}

/// How a login ends: a failed lookup as its kind, a wrong password as bad
/// credentials, an account that is not confirmed as pending, and else the
/// session that is signed for the account at the given second.
pub open spec fn login_outcome(
    lookup: Result<User, StorageFailure>,
    password: Seq<char>,
    secret: Seq<char>,
    now: int,
) -> OutcomeView {
    match lookup {
        Err(failure) => OutcomeView::Failed(kind_of_failure(failure)),
        Ok(user) => if !password_matches(user.pass@, password) {
            OutcomeView::Failed(bad_credentials())
        } else if !user.conf {
            OutcomeView::Pending(ThresholdKind::Login)
        } else {
            match jwt_text(claims_of(issued(user, now)), secret) {
                Some(token) => OutcomeView::Session(token),
                None => OutcomeView::Failed(PupilErrorKind::EnvVar),
            }
        },
    }
}

/// The user that a session's claims stand for.
pub open spec fn user_of(claims: Claims, user: SafeUser) -> bool {
    &&& user.id == claims.id
    &&& user.name@ == claims.name
    &&& user.email@ == claims.email
    &&& user.username@ == claims.username
}

/// What the session check answers for a token and what validation made of
/// it: without a token there is no session and nothing to drop; a token that
/// is refused is to be dropped.
pub open spec fn session_found(
    cookie: Option<Seq<char>>,
    validated: Result<Claims, PupilErrorKind>,
    check: SessionCheck,
) -> bool {
    match cookie {
        None => check.user == Err::<SafeUser, PupilErrorKind>(PupilErrorKind::BadCookie)
            && !check.forget_cookie,
        Some(_) => match validated {
            Ok(claims) => (check.user matches Ok(user) && user_of(claims, user))
                && !check.forget_cookie,
            Err(_) => check.user == Err::<SafeUser, PupilErrorKind>(PupilErrorKind::BadCookie)
                && check.forget_cookie,
        },
    }
}

/// What validation makes of the token of a request at a second, and the one
/// refusal where the request carried none.
pub open spec fn session_verdict(cookie: Option<Seq<char>>, secret: Seq<char>, now: int) -> Result<
    Claims,
    PupilErrorKind,
> {
    match cookie {
        Some(token) => accepted(jwt_claims(token, secret), issuer(), now),
        None => Err(PupilErrorKind::BadCookie),
    }
}

/// The token that a request carried, if any.
pub open spec fn cookie_view(cookie: Option<&str>) -> Option<Seq<char>> {
    match cookie {
        Some(token) => Some(token@),
        None => None,
    }
}

/// The name of the cookie that carries the session token.
pub fn cookie_name() -> (name: &'static str)
    ensures
        name@ == "jwt"@,
{
    "jwt"
}

/// Decides a login at a given second on what the lookup of the username
/// found.
///
/// A session that is handed out is valid at the second of its issue, under
/// the secret it was signed with, and stands for the account that was found.
pub fn login_at(
    credentials: &Login,
    lookup: Result<User, StorageFailure>,
    secret: &str,
    now: i64,
) -> (outcome: Outcome)
    requires
        now <= ISSUE_MAX,
    ensures
        outcome@ == login_outcome(lookup, credentials.password@, secret@, now as int),
        outcome matches Outcome::Session(token) ==> (lookup matches Ok(user) && accepted(
            jwt_claims(token@, secret@),
            issuer(),
            now as int,
        ) == Ok::<Claims, PupilErrorKind>(issued(user, now as int))),
{
    let user = match lookup {
        Ok(user) => user,
        Err(failure) => {
            return Outcome::Failed(PupilErrorKind::from_storage(&failure));
        },
    };
    if !verify_password(user.pass.as_str(), credentials.password.as_str()) {
        return Outcome::Failed(
            PupilErrorKind::AuthInput {
                field: ThresholdField::UserOrPass,
                error: FieldError::Invalid,
            },
        );
    }
    if !user.conf {
        return Outcome::Pending(ThresholdKind::Login);
    }
    let claims = UserToken::issued_at(user, now);
    match claims.construct_jwt(secret.to_owned()) {
        Some(token) => {
            assert(accepted(jwt_claims(token@, secret@), claims.iss@, now as int) == Ok::<
                Claims,
                PupilErrorKind,
            >(claims@));
            Outcome::Session(token)
        },
        None => Outcome::Failed(PupilErrorKind::EnvVar),
    }
}

/// Decides a login now.
pub fn login(credentials: &Login, lookup: Result<User, StorageFailure>, secret: &str) -> (outcome:
    Outcome)
    ensures
        exists|now: int|
            outcome@ == #[trigger] login_outcome(lookup, credentials.password@, secret@, now),
        outcome matches Outcome::Session(_) ==> (lookup matches Ok(user) && user.conf
            && password_matches(user.pass@, credentials.password@)),
{
    let now = unix_now();
    let outcome = login_at(credentials, lookup, secret, now);
    assert(outcome@ == login_outcome(lookup, credentials.password@, secret@, now as int));
    outcome
}

/// Checks the session of a request at a given second.
pub fn session_at(cookie: Option<&str>, secret: &str, now: i64) -> (check: SessionCheck)
    ensures
        session_found(
            cookie_view(cookie),
            session_verdict(cookie_view(cookie), secret@, now as int),
            check,
        ),
{
    let token = match cookie {
        Some(token) => token,
        None => {
            return SessionCheck { user: Err(PupilErrorKind::BadCookie), forget_cookie: false };
        },
    };
    match validate_at(token, secret, "pupil", now) {
        Ok(claims) => SessionCheck { user: Ok(SafeUser::from(claims)), forget_cookie: false },
        Err(_) => SessionCheck { user: Err(PupilErrorKind::BadCookie), forget_cookie: true },
    }
}

/// Checks the session of a request now.
pub fn session(cookie: Option<&str>, secret: &str) -> (check: SessionCheck)
    ensures
        exists|now: int|
            session_found(
                cookie_view(cookie),
                #[trigger] session_verdict(cookie_view(cookie), secret@, now),
                check,
            ),
        check.user matches Err(kind) ==> kind == PupilErrorKind::BadCookie,
{
    let now = unix_now();
    let check = session_at(cookie, secret, now);
    assert(session_found(
        cookie_view(cookie),
        session_verdict(cookie_view(cookie), secret@, now as int),
        check,
    ));
    check
}

/// What a confirmation link brings about: the account that is marked as
/// confirmed and the record that is used up by it. A link confirms once: the
/// caller removes the record.
#[derive(Debug, Clone, Copy, PartialEq, Eq, Structural)]
pub struct Confirmed {
    /// The id of the account.
    pub account: i32,
    /// The id of the confirmation record.
    pub record: i32,
}

/// What a confirmation link brings about, given the record that storage
/// found for the link's token: something where it found one and the record
/// holds that very token, and nothing else.
pub open spec fn confirmation(key: Seq<char>, found: Result<Conf, StorageFailure>) -> Option<
    Confirmed,
> {
    match found {
        Ok(record) => if record.link@ == key {
            Some(Confirmed { account: record.userid, record: record.id })
        } else {
            None
        },
        Err(_) => None,
    }
}

/// Decides on a confirmation link, given what storage found for its token.
pub fn confirm(key: &str, found: Result<Conf, StorageFailure>) -> (confirmed: Option<Confirmed>)
    ensures
        confirmed == confirmation(key@, found),
{
    match found {
        Ok(record) => if str_eq(record.link.as_str(), key) {
            Some(Confirmed { account: record.userid, record: record.id })
        } else {
            None
        },
        Err(_) => None,
    }
}

/// A session is handed out to a confirmed account for its right password
/// and to nobody else; an account that is not confirmed gets the pending
/// outcome for the right password, and no session.
pub proof fn law_session_needs_password_and_confirmation(
    lookup: Result<User, StorageFailure>,
    password: Seq<char>,
    secret: Seq<char>,
    now: int,
)
    ensures
        login_outcome(lookup, password, secret, now) is Session ==> (lookup matches Ok(user)
            && user.conf && password_matches(user.pass@, password)),
        login_outcome(lookup, password, secret, now) == OutcomeView::Pending(ThresholdKind::Login)
            <==> (lookup matches Ok(user) && !user.conf && password_matches(
            user.pass@,
            password,
        )),
        (lookup matches Ok(user) && !password_matches(user.pass@, password)) ==> login_outcome(
            lookup,
            password,
            secret,
            now,
        ) == OutcomeView::Failed(bad_credentials()),
{
}

/// An unknown username and a wrong password end a login alike.
pub proof fn law_unknown_user_looks_like_wrong_password(
    user: User,
    password: Seq<char>,
    secret: Seq<char>,
    now: int,
)
    requires
        !password_matches(user.pass@, password),
    ensures
        login_outcome(Ok(user), password, secret, now) == login_outcome(
            Err(StorageFailure::NotFound),
            password,
            secret,
            now,
        ),
{
}

} // verus!
