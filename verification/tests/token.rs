use pupil_auth::claims::{lookup, Claim, ClaimValue};
use pupil_auth::error::PupilErrorKind;
use pupil_auth::model::{SafeUser, User};
use pupil_auth::token::{check_claims, validate, validate_at, UserToken, ONE_MIN};

fn john_smith() -> User {
    User {
        id: 1,
        name: String::from("John Smith"),
        email: String::from("jsmith@website.com"),
        username: String::from("jsmith"),
        pass: String::from("hashed_password"),
        conf: true,
    }
}

fn fixed_claims() -> UserToken {
    let mut claims = UserToken::new(john_smith());
    claims.iat = 1492907635;
    claims.exp = 1492907695;
    claims
}

const ENCODED: &str = "eyJ0eXAiOiJKV1QiLCJhbGciOiJIUzI1NiJ9.eyJpYXQiOjE0OTI5MDc2MzUsImV4cCI6MTQ5Mj\
    kwNzY5NSwiaXNzIjoicHVwaWwiLCJpZCI6MSwibmFtZSI6IkpvaG4gU21pdGgiLCJlbWFpbCI6ImpzbWl0aEB3\
    ZWJzaXRlLmNvbSIsInVzZXJuYW1lIjoianNtaXRoIiwiY29uZiI6dHJ1ZX0.655jzhRXSF05RJyACAWv_tuT9p\
    MMVyIyMh4Icb6EKOI";

#[test]
fn token_encode_jwt() {
    let issued_at = 1492907635;
    let expired = 1492907695;
    let name = String::from("John Smith");
    let email = String::from("jsmith@website.com");
    let username = String::from("jsmith");
    let pass = String::from("hashed_password");
    let conf = true;

    let mut claims = UserToken::new(User {
        id: 1,
        name: name,
        email: email,
        username: username,
        pass: pass,
        conf: conf,
    });

    claims.iat = issued_at;
    claims.exp = expired;

    let encoded = "eyJ0eXAiOiJKV1QiLCJhbGciOiJIUzI1NiJ9.eyJpYXQiOjE0OTI5MDc2MzUsImV4cCI6MTQ5Mj\
        kwNzY5NSwiaXNzIjoicHVwaWwiLCJpZCI6MSwibmFtZSI6IkpvaG4gU21pdGgiLCJlbWFpbCI6ImpzbWl0aEB3\
        ZWJzaXRlLmNvbSIsInVzZXJuYW1lIjoianNtaXRoIiwiY29uZiI6dHJ1ZX0.655jzhRXSF05RJyACAWv_tuT9p\
        MMVyIyMh4Icb6EKOI";

    assert_eq!(
        claims.construct_jwt(String::from("secret")),
        Some(String::from(encoded))
    );
}

#[test]
fn model_encode_jwt() {
    let claims = fixed_claims();
    assert_eq!(claims.construct_jwt(String::from("secret")).unwrap(), ENCODED);
}

#[test]
fn new_claims_last_one_minute() {
    let claims = UserToken::new(john_smith());
    assert_eq!(claims.exp, claims.iat + 60);
    assert_eq!(ONE_MIN, 60);
    assert_eq!(claims.iss, "pupil");
    assert_eq!(claims.id, 1);
    assert_eq!(claims.name, "John Smith");
    assert_eq!(claims.email, "jsmith@website.com");
    assert_eq!(claims.username, "jsmith");
    assert!(claims.conf);
    assert!(claims.iat > 1_492_907_635);
}

#[test]
fn issued_at_is_exact() {
    let claims = UserToken::issued_at(john_smith(), 1000);
    assert_eq!(claims.iat, 1000);
    assert_eq!(claims.exp, 1060);
    assert_eq!(claims, {
        let mut other = fixed_claims();
        other.iat = 1000;
        other.exp = 1060;
        other
    });
}

#[test]
fn token_round_trip() {
    let claims = fixed_claims();
    let token = claims.construct_jwt(String::from("secret")).unwrap();
    assert_eq!(validate_at(&token, "secret", "pupil", 1492907635), Ok(fixed_claims()));
    assert_eq!(validate_at(&token, "secret", "pupil", 1492907694), Ok(fixed_claims()));
    assert_eq!(validate_at(ENCODED, "secret", "pupil", 0), Ok(fixed_claims()));
}

#[test]
fn fresh_token_is_valid_now() {
    let claims = UserToken::new(john_smith());
    let token = claims.construct_jwt(String::from("secret")).unwrap();
    assert_eq!(validate(&token, "secret", "pupil"), Ok(claims));
}

#[test]
fn expired_token_is_refused() {
    assert_eq!(
        validate_at(ENCODED, "secret", "pupil", 1492907695),
        Err(PupilErrorKind::BadCookie)
    );
    assert_eq!(
        validate_at(ENCODED, "secret", "pupil", 1492907696),
        Err(PupilErrorKind::BadCookie)
    );
    assert_eq!(validate(ENCODED, "secret", "pupil"), Err(PupilErrorKind::BadCookie));
}

#[test]
fn foreign_issuer_is_refused() {
    assert_eq!(validate_at(ENCODED, "secret", "pupils", 0), Err(PupilErrorKind::BadCookie));
    assert_eq!(validate_at(ENCODED, "secret", "", 0), Err(PupilErrorKind::BadCookie));
    let mut claims = fixed_claims();
    claims.iss = String::from("someone else");
    let token = claims.construct_jwt(String::from("secret")).unwrap();
    assert_eq!(validate_at(&token, "secret", "pupil", 0), Err(PupilErrorKind::BadCookie));
    assert_eq!(validate_at(&token, "secret", "someone else", 0), Ok(claims));
}

#[test]
fn wrong_secret_is_refused() {
    assert_eq!(validate_at(ENCODED, "Secret", "pupil", 0), Err(PupilErrorKind::BadCookie));
    assert_eq!(validate_at(ENCODED, "", "pupil", 0), Err(PupilErrorKind::BadCookie));
}

#[test]
fn tampered_token_is_refused() {
    let first_dot = ENCODED.find('.').unwrap();
    for at in (first_dot + 1)..ENCODED.len() {
        let mut bytes = ENCODED.as_bytes().to_vec();
        if bytes[at] == b'.' {
            continue;
        }
        bytes[at] = if bytes[at] == b'A' { b'B' } else { b'A' };
        let tampered = String::from_utf8(bytes).unwrap();
        assert_eq!(
            validate_at(&tampered, "secret", "pupil", 0),
            Err(PupilErrorKind::BadCookie),
            "byte {}",
            at
        );
    }
}

#[test]
fn malformed_tokens_are_refused() {
    for token in ["", ".", "..", "a.b.c", "invalidtoken", "eyJ0eXAiOiJKV1QiLCJhbGciOiJIUzI1NiJ9..", "a.b.c.d"] {
        assert_eq!(
            validate_at(token, "secret", "pupil", 0),
            Err(PupilErrorKind::BadCookie),
            "{}",
            token
        );
    }
}

#[test]
fn unsigned_token_is_refused() {
    // header {"typ":"JWT","alg":"none"} and the payload of the fixture
    let payload = ENCODED.split('.').nth(1).unwrap();
    let token = format!("eyJ0eXAiOiJKV1QiLCJhbGciOiJub25lIn0.{}.", payload);
    assert_eq!(validate_at(&token, "secret", "pupil", 0), Err(PupilErrorKind::BadCookie));
}

#[test]
fn payload_is_written_in_order() {
    let payload = fixed_claims().claims();
    let names: Vec<&str> = payload.iter().map(|c| c.name.as_str()).collect();
    assert_eq!(
        names,
        vec!["iat", "exp", "iss", "id", "name", "email", "username", "conf"]
    );
    assert_eq!(lookup(&payload, "exp"), Some(&ClaimValue::Int(1492907695)));
    assert_eq!(lookup(&payload, "iss"), Some(&ClaimValue::Text(String::from("pupil"))));
    assert_eq!(lookup(&payload, "conf"), Some(&ClaimValue::Flag(true)));
    assert_eq!(lookup(&payload, "sub"), None);
    assert_eq!(UserToken::from_claims(&payload), Some(fixed_claims()));
}

#[test]
fn incomplete_payload_is_refused() {
    for missing in 0..8 {
        let mut payload = fixed_claims().claims();
        payload.remove(missing);
        assert_eq!(UserToken::from_claims(&payload), None);
        assert_eq!(
            check_claims(Some(payload), "pupil", 0),
            Err(PupilErrorKind::BadCookie)
        );
    }
    assert_eq!(check_claims(None, "pupil", 0), Err(PupilErrorKind::BadCookie));
    assert_eq!(check_claims(Some(Vec::new()), "pupil", 0), Err(PupilErrorKind::BadCookie));
}

#[test]
fn payload_of_wrong_kinds_is_refused() {
    let mut payload = fixed_claims().claims();
    payload[3] = Claim { name: String::from("id"), value: ClaimValue::Int(0x8000_0000) };
    assert_eq!(UserToken::from_claims(&payload), None);
    payload[3] = Claim { name: String::from("id"), value: ClaimValue::Int(-0x8000_0000) };
    assert_eq!(UserToken::from_claims(&payload).unwrap().id, i32::MIN);
    payload[3] = Claim { name: String::from("id"), value: ClaimValue::Text(String::from("1")) };
    assert_eq!(UserToken::from_claims(&payload), None);
    let mut payload = fixed_claims().claims();
    payload[7] = Claim { name: String::from("conf"), value: ClaimValue::Other };
    assert_eq!(UserToken::from_claims(&payload), None);
}

#[test]
fn other_members_are_passed_over() {
    let mut payload = fixed_claims().claims();
    payload.insert(0, Claim { name: String::from("sub"), value: ClaimValue::Text(String::from("x")) });
    payload.push(Claim { name: String::from("aud"), value: ClaimValue::Other });
    assert_eq!(check_claims(Some(payload), "pupil", 1492907694), Ok(fixed_claims()));
}

#[test]
fn safe_user_of_claims() {
    assert_eq!(
        SafeUser::from(fixed_claims()),
        SafeUser {
            id: 1,
            name: String::from("John Smith"),
            email: String::from("jsmith@website.com"),
            username: String::from("jsmith"),
        }
    );
    assert_eq!(SafeUser::from(john_smith()), SafeUser::from(fixed_claims()));
}
