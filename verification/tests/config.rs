use pupil_auth::config::{Setting, Settings};
use pupil_auth::error::PupilErrorKind;

fn some(text: &str) -> Option<String> {
    Some(String::from(text))
}

#[test]
fn names_of_the_settings() {
    assert_eq!(Setting::DatabaseUrl.name(), "DATABASE_URL");
    assert_eq!(Setting::JwtSecret.name(), "JWT_SECRET");
    assert_eq!(Setting::HashSecret.name(), "HASH_SECRET");
    assert_eq!(Setting::MailUsername.name(), "MAIL_USERNAME");
    assert_eq!(Setting::MailPassword.name(), "MAIL_PASSWORD");
}

#[test]
fn complete_settings() {
    let settings =
        Settings::new(some("postgres://db"), some("jwt"), some("hash"), some("me"), some("pw"));
    assert!(
        settings
            == Ok(Settings {
                database_url: String::from("postgres://db"),
                jwt_secret: String::from("jwt"),
                hash_secret: String::from("hash"),
                mail_username: String::from("me"),
                mail_password: String::from("pw"),
            })
    );
}

#[test]
fn a_missing_setting_is_a_fault_of_the_configuration() {
    let all = [some("postgres://db"), some("jwt"), some("hash"), some("me"), some("pw")];
    for missing in 0..5 {
        let mut given = all.clone();
        given[missing] = None;
        let [a, b, c, d, e] = given;
        assert!(Settings::new(a, b, c, d, e) == Err(PupilErrorKind::EnvVar));
    }
    assert!(Settings::new(None, None, None, None, None) == Err(PupilErrorKind::EnvVar));
}

#[test]
fn hashing_secret_has_to_fit() {
    let with = |secret: String| {
        Settings::new(some("postgres://db"), some("jwt"), Some(secret), some("me"), some("pw"))
    };
    assert!(with("s".repeat(32)).is_ok());
    assert!(with(String::new()).is_ok());
    assert!(with("s".repeat(33)) == Err(PupilErrorKind::EnvVar));
    assert!(with("é".repeat(17)) == Err(PupilErrorKind::EnvVar));
    assert!(with("é".repeat(16)).is_ok());
}
