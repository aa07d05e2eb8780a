use argon2rs::verifier::Encoded;
use argon2rs::{Argon2, Variant};
use pupil_auth::link::link_for;
use pupil_auth::model::User;
use pupil_auth::passwd::{hash_with_salt, verify_password};
use pupil_auth::register::valid_email;
use pupil_auth::token::{validate_at, UserToken};

fn session(key: &[u8], data: &[u8]) -> Vec<u8> {
    let hasher = Argon2::new(10, 1, 4096, Variant::Argon2i).unwrap();
    Encoded::new(hasher, b"password", &[3u8; 64], key, data).to_u8()
}

#[test]
fn keyed_hash_without_username_cannot_be_read_back() {
    assert!(Encoded::from_u8(&session(b"secret", b"")).is_err());
    assert!(Encoded::from_u8(&session(b"secret", b"jsmith")).is_ok());
    assert!(Encoded::from_u8(&session(b"", b"jsmith")).is_ok());
    assert!(Encoded::from_u8(&session(b"", b"")).is_ok());
    assert_eq!(hash_with_salt("", "password", "secret", &[3u8; 64]), None);
}

#[test]
fn hash_is_the_text_of_the_session() {
    for (secret, username) in [("secret", "jsmith"), ("", "jsmith"), ("", ""), ("k", "u")] {
        let text = session(secret.as_bytes(), username.as_bytes());
        let hash = hash_with_salt(username, "password", secret, &[3u8; 64]).unwrap();
        assert_eq!(hash.as_bytes(), &text[..]);
        assert!(verify_password(&hash, "password"));
        assert_eq!(
            verify_password(&hash, "passwor"),
            Encoded::from_u8(&text).unwrap().verify(b"passwor")
        );
    }
}

#[test]
fn longest_secret_and_shortest_salt() {
    let secret = "k".repeat(32);
    let hash = hash_with_salt("u", "password", &secret, &[5u8; 8]).unwrap();
    assert!(verify_password(&hash, "password"));
    assert!(!verify_password(&hash, "password "));
}

fn base32(mut number: u64) -> String {
    let symbols: Vec<char> = "0123456789ABCDEFGHJKMNPQRSTVWXYZ".chars().collect();
    let mut text = vec![symbols[(number % 32) as usize]];
    number /= 32;
    while number > 0 {
        text.push(symbols[(number % 32) as usize]);
        number /= 32;
    }
    text.iter().rev().collect()
}

#[test]
fn links_are_numbers_in_base_32() {
    for shift in 0..64 {
        let power = 1u64 << shift;
        for number in [power - 1, power, power + 1, power | 0x5555, !power] {
            assert_eq!(link_for(number), base32(number), "{}", number);
            assert_eq!(crockford::decode(link_for(number)).unwrap(), number);
        }
    }
}

#[test]
fn rules_of_a_list_turn_no_address_down() {
    let list = publicsuffix::List::from_str(
        "// ===BEGIN ICANN DOMAINS===\ncom\nuk\nco.uk\n*.ck\n!www.ck\n// ===END ICANN DOMAINS===\n",
    )
    .unwrap();
    for address in [
        "jsmith@website.com",
        "jsmith@website.co.uk",
        "jsmith@www.ck",
        "jsmith@a.b.ck",
        "jsmith@localhost",
        "jsmith@website.unknown",
        "jsmith@[127.0.0.1]",
        "jsmith@127.0.0.1",
        "\"j smith\"@website.com",
        "jsmith@Website.COM",
        "jsmith@xn--bcher-kva.example",
        "jsmith",
        "jsmith@",
        "@website.com",
        "jsmith@-website.com",
        "jsmith@website..com",
        "jsmith@.com",
        "js mith@website.com",
        "jsmith@website.123",
        "",
    ] {
        assert_eq!(valid_email(address), list.parse_email(address).is_ok(), "{}", address);
    }
}

#[test]
fn claims_of_any_content_come_back() {
    let claims = UserToken {
        iat: i64::MIN,
        exp: i64::MAX,
        iss: String::from("issuer \"quoted\" \\ and / slashed"),
        id: i32::MIN,
        name: String::from("Zoë \u{0}\u{1f}\u{7f} \u{1F600} \n\t"),
        email: String::new(),
        username: String::from("{\"conf\":false}"),
        conf: false,
    };
    let token = claims.clone().construct_jwt(String::from("secret \u{e9}")).unwrap();
    assert_eq!(token.matches('.').count(), 2);
    assert_eq!(
        validate_at(&token, "secret \u{e9}", "issuer \"quoted\" \\ and / slashed", i64::MAX - 1),
        Ok(claims)
    );
    let mut other = UserToken::issued_at(User::mock_jane(), 0);
    other.id = i32::MAX;
    let token = other.construct_jwt(String::new()).unwrap();
    assert_eq!(validate_at(&token, "", "pupil", 59), Ok(other));
}
