//! The session token: the claims of a signed-in user, issued as a signed
//! string and validated against signature, issuer and expiry.

use crate::claims::{
    claim_views, distinct_names, find, jwt_claims, jwt_text, lookup, open_token, payload_view,
    sign_claims, Claim, ClaimValue, ClaimView, ValueView,
};
use crate::error::PupilErrorKind;
use crate::model::{SafeUser, User};
use crate::text::{str_eq, text_view};
use vstd::prelude::*;
use vstd::string::*;

verus! {

/// The seconds that a token is valid for.
pub const ONE_MIN: i64 = 60;

/// The latest second at which a token can be issued: its expiry has to fit.
pub const ISSUE_MAX: i64 = 0x7fff_ffff_ffff_ffc3;

/// The issuer that this library writes and asks for.
pub open spec fn issuer() -> Seq<char> {
    "pupil"@
}

/// The claims of a session.
#[derive(Debug, Clone, PartialEq, Eq)]
pub struct UserToken {
    /// The second at which the token was issued.
    pub iat: i64,
    /// The second from which the token is no longer valid.
    pub exp: i64,
    /// Who issued the token.
    pub iss: String,
    pub id: i32,
    pub name: String,
    pub email: String,
    pub username: String,
    /// Whether the email address was confirmed.
    pub conf: bool,
}

/// What the claims of a session are.
pub struct Claims {
    pub iat: int,
    pub exp: int,
    pub iss: Seq<char>,
    pub id: int,
    pub name: Seq<char>,
    pub email: Seq<char>,
    pub username: Seq<char>,
    pub conf: bool,
}

impl View for UserToken {
    type V = Claims;

    open spec fn view(&self) -> Claims {
        Claims {
            iat: self.iat as int,
            exp: self.exp as int,
            iss: self.iss@,
            id: self.id as int,
            name: self.name@,
            email: self.email@,
            username: self.username@,
            conf: self.conf,
        }
    }
}

/// What the outcome of a validation is.
pub open spec fn outcome_view(outcome: Result<UserToken, PupilErrorKind>) -> Result<
    Claims,
    PupilErrorKind,
> {
    match outcome {
        Ok(token) => Ok(token@),
        Err(kind) => Err(kind),
    }
}

/// The claims that are issued to a user at a second.
pub open spec fn issued(user: User, now: int) -> Claims {
    Claims {
        iat: now,
        exp: now + ONE_MIN,
        iss: issuer(),
        id: user.id as int,
        name: user.name@,
        email: user.email@,
        username: user.username@,
        conf: user.conf,
    }
}

/// The payload of a token: the members in the order in which they are
/// written.
pub open spec fn claims_of(token: Claims) -> Seq<ClaimView> {
    seq![
        ClaimView { name: "iat"@, value: ValueView::Int(token.iat) },
        ClaimView { name: "exp"@, value: ValueView::Int(token.exp) },
        ClaimView { name: "iss"@, value: ValueView::Text(token.iss) },
        ClaimView { name: "id"@, value: ValueView::Int(token.id) },
        ClaimView { name: "name"@, value: ValueView::Text(token.name) },
        ClaimView { name: "email"@, value: ValueView::Text(token.email) },
        ClaimView { name: "username"@, value: ValueView::Text(token.username) },
        ClaimView { name: "conf"@, value: ValueView::Flag(token.conf) },
    ]
}

/// The whole number of a name in a payload.
pub open spec fn int_claim(claims: Seq<ClaimView>, name: Seq<char>) -> Option<int> {
    match find(claims, name) {
        Some(ValueView::Int(n)) => Some(n),
        _ => None,
    }
}

/// The string of a name in a payload.
pub open spec fn text_claim(claims: Seq<ClaimView>, name: Seq<char>) -> Option<Seq<char>> {
    match find(claims, name) {
        Some(ValueView::Text(t)) => Some(t),
        _ => None,
    }
}

/// The flag of a name in a payload.
pub open spec fn flag_claim(claims: Seq<ClaimView>, name: Seq<char>) -> Option<bool> {
    match find(claims, name) {
        Some(ValueView::Flag(b)) => Some(b),
        _ => None,
    }
}

/// The claims that a payload holds: every member of a session's claims has
/// to be there with a value of its kind, and the id has to fit 32 bits.
/// Members of other names are passed over.
pub open spec fn token_of(claims: Seq<ClaimView>) -> Option<Claims> {
    if int_claim(claims, "iat"@) is Some && int_claim(claims, "exp"@) is Some && text_claim(
        claims,
        "iss"@,
    ) is Some && int_claim(claims, "id"@) is Some && i32::MIN <= int_claim(claims, "id"@)->0
        <= i32::MAX && text_claim(claims, "name"@) is Some && text_claim(claims, "email"@) is Some
        && text_claim(claims, "username"@) is Some && flag_claim(claims, "conf"@) is Some {
        Some(
            Claims {
                iat: int_claim(claims, "iat"@)->0,
                exp: int_claim(claims, "exp"@)->0,
                iss: text_claim(claims, "iss"@)->0,
                id: int_claim(claims, "id"@)->0,
                name: text_claim(claims, "name"@)->0,
                email: text_claim(claims, "email"@)->0,
                username: text_claim(claims, "username"@)->0,
                conf: flag_claim(claims, "conf"@)->0,
            },
        )
    } else {
        None
    }
}

/// What validation returns for the payload of an opened token, or for none
/// where the token could not be opened: the claims, where they are complete,
/// name the expected issuer and have not expired; else the one kind that
/// every refusal has.
pub open spec fn accepted(decoded: Option<Seq<ClaimView>>, expected: Seq<char>, now: int) -> Result<
    Claims,
    PupilErrorKind,
> {
    match decoded {
        Some(claims) => match token_of(claims) {
            Some(token) => if token.iss == expected && now < token.exp {
                Ok(token)
            } else {
                Err(PupilErrorKind::BadCookie)
            },
            None => Err(PupilErrorKind::BadCookie),
        },
        None => Err(PupilErrorKind::BadCookie),
    }
}

/// Calls `chrono::Utc::now` and `DateTime::timestamp`: the seconds since the
/// epoch, on a machine whose clock is not set before the epoch. Of the
/// second itself nothing is claimed. The bound is what the body of
/// `timestamp` gives: a count of days in 32 bits, times 86 400, and the
/// seconds of one day.
#[verifier::external_body]
pub(crate) fn unix_now() -> (now: i64)
    ensures
        -0x1_0000_0000_0000 < now < 0x1_0000_0000_0000,
{
    chrono::Utc::now().timestamp()
}

fn int_of(claims: &Vec<Claim>, name: &str) -> (value: Option<i64>)
    ensures
        match value {
            Some(n) => int_claim(claim_views(claims@), name@) == Some(n as int),
            None => int_claim(claim_views(claims@), name@).is_none(),
        },
{
    match lookup(claims, name) {
        Some(ClaimValue::Int(n)) => Some(*n),
        _ => None,
    }
}

fn text_of(claims: &Vec<Claim>, name: &str) -> (value: Option<String>)
    ensures
        text_view(value) == text_claim(claim_views(claims@), name@),
{
    match lookup(claims, name) {
        Some(ClaimValue::Text(t)) => Some(t.clone()),
        _ => None,
    }
}

fn flag_of(claims: &Vec<Claim>, name: &str) -> (value: Option<bool>)
    ensures
        value == flag_claim(claim_views(claims@), name@),
{
    match lookup(claims, name) {
        Some(ClaimValue::Flag(b)) => Some(*b),
        _ => None,
    }
}

/// The payload of a session's claims holds each member once, and reading it
/// gives the claims back.
pub proof fn lemma_payload_reads_back(token: Claims)
    requires
        i32::MIN <= token.id <= i32::MAX,
    ensures
        distinct_names(claims_of(token)),
        token_of(claims_of(token)) == Some(token),
{
    reveal_strlit("iat");
    reveal_strlit("exp");
    reveal_strlit("iss");
    reveal_strlit("id");
    reveal_strlit("name");
    reveal_strlit("email");
    reveal_strlit("username");
    reveal_strlit("conf");
    reveal_with_fuel(find, 9);
    let claims = claims_of(token);
    assert(claims.drop_first().len() == 7);
    assert("iat"@[0] == 'i' && "iat"@[1] == 'a');
    assert("exp"@[0] == 'e' && "exp"@[1] == 'x');
    assert("iss"@[0] == 'i' && "iss"@[1] == 's');
    assert("id"@[0] == 'i' && "id"@[1] == 'd');
    assert("name"@[0] == 'n');
    assert("email"@[0] == 'e' && "email"@[1] == 'm');
    assert("username"@[0] == 'u');
    assert("conf"@[0] == 'c');
    let s1 = claims.drop_first();
    let s2 = s1.drop_first();
    let s3 = s2.drop_first();
    let s4 = s3.drop_first();
    let s5 = s4.drop_first();
    let s6 = s5.drop_first();
    let s7 = s6.drop_first();
    assert(s1[0] == claims[1] && s2[0] == claims[2] && s3[0] == claims[3] && s4[0] == claims[4]
        && s5[0] == claims[5] && s6[0] == claims[6] && s7[0] == claims[7]);
    assert(find(claims, "iat"@) == Some(ValueView::Int(token.iat)));
    assert(find(claims, "exp"@) == Some(ValueView::Int(token.exp)));
    assert(find(claims, "iss"@) == Some(ValueView::Text(token.iss)));
    assert(find(claims, "id"@) == Some(ValueView::Int(token.id)));
    assert(find(claims, "name"@) == Some(ValueView::Text(token.name)));
    assert(find(claims, "email"@) == Some(ValueView::Text(token.email)));
    assert(find(claims, "username"@) == Some(ValueView::Text(token.username)));
    assert(find(claims, "conf"@) == Some(ValueView::Flag(token.conf)));
}

impl UserToken {
    /// The claims for a user, issued at a given second and valid for
    /// `ONE_MIN` seconds.
    pub fn issued_at(user: User, now: i64) -> (token: UserToken)
        requires
            now <= ISSUE_MAX,
        ensures
            token@ == issued(user, now as int),
    {
        UserToken {
            iat: now,
            exp: now + ONE_MIN,
            iss: "pupil".to_owned(),
            id: user.id,
            name: user.name,
            email: user.email,
            username: user.username,
            conf: user.conf,
        }
    }

    /// The claims for a user, issued now.
    pub fn new(user: User) -> (token: UserToken)
        ensures
            exists|now: int| token@ == #[trigger] issued(user, now),
            token.exp == token.iat + ONE_MIN,
            token.iss@ == issuer(),
    {
        let now = unix_now();
        let token = UserToken::issued_at(user, now);
        assert(token@ == issued(user, now as int));
        token
    }

    /// The payload of these claims.
    pub fn claims(&self) -> (payload: Vec<Claim>)
        ensures
            claim_views(payload@) == claims_of(self@),
    {
        let mut payload: Vec<Claim> = Vec::new();
        payload.push(Claim { name: "iat".to_owned(), value: ClaimValue::Int(self.iat) });
        payload.push(Claim { name: "exp".to_owned(), value: ClaimValue::Int(self.exp) });
        payload.push(Claim { name: "iss".to_owned(), value: ClaimValue::Text(self.iss.clone()) });
        payload.push(Claim { name: "id".to_owned(), value: ClaimValue::Int(self.id as i64) });
        payload.push(Claim { name: "name".to_owned(), value: ClaimValue::Text(self.name.clone()) });
        payload.push(
            Claim { name: "email".to_owned(), value: ClaimValue::Text(self.email.clone()) },
        );
        payload.push(
            Claim { name: "username".to_owned(), value: ClaimValue::Text(self.username.clone()) },
        );
        payload.push(Claim { name: "conf".to_owned(), value: ClaimValue::Flag(self.conf) });
        assert(claim_views(payload@) =~= claims_of(self@));
        payload
    }

    /// The claims that a payload holds, where it holds them all.
    pub fn from_claims(payload: &Vec<Claim>) -> (token: Option<UserToken>)
        ensures
            match token {
                Some(t) => token_of(claim_views(payload@)) == Some(t@),
                None => token_of(claim_views(payload@)).is_none(),
            },
    {
        let iat = int_of(payload, "iat");
        let exp = int_of(payload, "exp");
        let iss = text_of(payload, "iss");
        let id = int_of(payload, "id");
        let name = text_of(payload, "name");
        let email = text_of(payload, "email");
        let username = text_of(payload, "username");
        let conf = flag_of(payload, "conf");
        match (iat, exp, iss, id, name, email, username, conf) {
            (
                Some(iat),
                Some(exp),
                Some(iss),
                Some(id),
                Some(name),
                Some(email),
                Some(username),
                Some(conf),
            ) => {
                if id < -0x8000_0000 || id > 0x7fff_ffff {
                    None
                } else {
                    Some(UserToken { iat, exp, iss, id: id as i32, name, email, username, conf })
                }
            },
            _ => None,
        }
    }

    /// Signs the claims with a secret: the token, of three parts with dots
    /// between them.
    ///
    /// A token that is handed out is accepted again under the same secret
    /// and for the issuer it names, at any second before its expiry, and
    /// gives these claims back.
    pub fn construct_jwt(&self, secret: String) -> (token: Option<String>)
        ensures
            text_view(token) == jwt_text(claims_of(self@), secret@),
            token matches Some(t) ==> forall|now: int|
                now < self.exp ==> #[trigger] accepted(jwt_claims(t@, secret@), self.iss@, now)
                    == Ok::<Claims, PupilErrorKind>(self@),
    {
        let payload = self.claims();
        proof {
            lemma_payload_reads_back(self@);
        }
        sign_claims(&payload, secret.as_str())
    }
}

impl From<UserToken> for SafeUser {
    fn from(user: UserToken) -> (safe: SafeUser) {
        SafeUser { id: user.id, name: user.name, email: user.email, username: user.username }
    }
}

impl vstd::std_specs::convert::FromSpecImpl<UserToken> for SafeUser {
    open spec fn obeys_from_spec() -> bool {
        true
    }

    open spec fn from_spec(user: UserToken) -> SafeUser {
        SafeUser { id: user.id, name: user.name, email: user.email, username: user.username }
    }
}

/// Issues the claims for a user now and signs them: the token of a fresh
/// session.
pub fn construct_token(user: User, secret: &str) -> (token: Option<String>)
    ensures
        exists|now: int| text_view(token) == #[trigger] jwt_text(claims_of(issued(user, now)), secret@),
{
    let claims = UserToken::new(user);
    let token = claims.construct_jwt(secret.to_owned());
    assert(text_view(token) == jwt_text(claims_of(claims@), secret@));
    token
}

/// Decides on the payload of an opened token, or on none where the token
/// could not be opened.
pub fn check_claims(decoded: Option<Vec<Claim>>, expected: &str, now: i64) -> (outcome: Result<
    UserToken,
    PupilErrorKind,
>)
    ensures
        outcome_view(outcome) == accepted(payload_view(decoded), expected@, now as int),
{
    let payload = match decoded {
        Some(payload) => payload,
        None => { return Err(PupilErrorKind::BadCookie); },
    };
    match UserToken::from_claims(&payload) {
        Some(token) => {
            if str_eq(token.iss.as_str(), expected) && now < token.exp {
                Ok(token)
            } else {
                Err(PupilErrorKind::BadCookie)
            }
        },
        None => Err(PupilErrorKind::BadCookie),
    }
}

/// Validates a token at a given second: the signature first, under the
/// secret and for HS256 alone, then the issuer and the expiry. Every refusal
/// has the one kind, so that a client cannot tell why a token was turned
/// down.
pub fn validate_at(token: &str, secret: &str, expected: &str, now: i64) -> (outcome: Result<
    UserToken,
    PupilErrorKind,
>)
    ensures
        outcome_view(outcome) == accepted(jwt_claims(token@, secret@), expected@, now as int),
        outcome matches Err(kind) ==> kind == PupilErrorKind::BadCookie,
{
    check_claims(open_token(token, secret), expected, now)
}

/// Validates a token now.
pub fn validate(token: &str, secret: &str, expected: &str) -> (outcome: Result<
    UserToken,
    PupilErrorKind,
>)
    ensures
        exists|now: int|
            outcome_view(outcome) == #[trigger] accepted(
                jwt_claims(token@, secret@),
                expected@,
                now,
            ),
        outcome matches Err(kind) ==> kind == PupilErrorKind::BadCookie,
{
    let now = unix_now();
    let outcome = validate_at(token, secret, expected, now);
    assert(outcome_view(outcome) == accepted(jwt_claims(token@, secret@), expected@, now as int));
    outcome
}

/// Claims that are complete, name the expected issuer and have not expired
/// are accepted as they are.
pub proof fn law_fresh_claims_are_accepted(token: Claims, now: int)
    requires
        i32::MIN <= token.id <= i32::MAX,
        now < token.exp,
    ensures
        accepted(Some(claims_of(token)), token.iss, now) == Ok::<Claims, PupilErrorKind>(token),
{
    lemma_payload_reads_back(token);
}

/// Claims whose expiry is not after the present second are refused, whatever
/// else they hold and however well they were signed.
pub proof fn law_expired_claims_are_refused(
    decoded: Option<Seq<ClaimView>>,
    expected: Seq<char>,
    now: int,
)
    requires
        decoded matches Some(claims) && token_of(claims) matches Some(token) && token.exp <= now,
    ensures
        accepted(decoded, expected, now) == Err::<Claims, PupilErrorKind>(
            PupilErrorKind::BadCookie,
        ),
{
}

/// Claims of another issuer are refused, however well they were signed.
pub proof fn law_foreign_issuer_is_refused(
    decoded: Option<Seq<ClaimView>>,
    expected: Seq<char>,
    now: int,
)
    requires
        decoded matches Some(claims) && token_of(claims) matches Some(token) && token.iss
            != expected,
    ensures
        accepted(decoded, expected, now) == Err::<Claims, PupilErrorKind>(
            PupilErrorKind::BadCookie,
        ),
{
}

/// Every refusal has the same kind, and what is accepted names the expected
/// issuer and has not expired.
pub proof fn law_refusals_look_alike(
    decoded: Option<Seq<ClaimView>>,
    expected: Seq<char>,
    now: int,
)
    ensures
        accepted(decoded, expected, now) matches Err(kind) ==> kind == PupilErrorKind::BadCookie,
        accepted(decoded, expected, now) matches Ok(token) ==> token.iss == expected && now
            < token.exp && (decoded matches Some(claims) && token_of(claims) == Some(token)),
{
}

} // verus!
