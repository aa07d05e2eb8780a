//! The settings that have to be there before the first request is served.

use crate::error::PupilErrorKind;
use crate::passwd::SECRET_MAX;
use vstd::prelude::*;
use vstd::string::*;

verus! {

/// The settings, by what they are for.
#[derive(Debug, Clone, Copy, PartialEq, Eq, Structural)]
pub enum Setting {
    /// Where storage is reached.
    DatabaseUrl,
    /// The secret that session tokens are signed with.
    JwtSecret,
    /// The secret that passwords are hashed under.
    HashSecret,
    /// The account of the outbound mail.
    MailUsername,
    /// The password of the outbound mail.
    MailPassword,
}

/// The settings of a running server. They are read once and handed to
/// whoever needs them; nothing looks them up again. They hold secrets: the
/// type cannot be printed.
#[derive(Clone, PartialEq, Eq)]
pub struct Settings {
    pub database_url: String,
    pub jwt_secret: String,
    pub hash_secret: String,
    pub mail_username: String,
    pub mail_password: String,
}

/// The name under which a setting is looked up.
pub open spec fn name_of(setting: Setting) -> Seq<char> {
    match setting {
        Setting::DatabaseUrl => "DATABASE_URL"@,
        Setting::JwtSecret => "JWT_SECRET"@,
        Setting::HashSecret => "HASH_SECRET"@,
        Setting::MailUsername => "MAIL_USERNAME"@,
        Setting::MailPassword => "MAIL_PASSWORD"@,
    }
}

/// Whether a secret can be the key of a password hash: Argon2 takes 32 bytes
/// at most.
pub open spec fn usable_hash_secret(secret: Seq<char>) -> bool {
    vstd::utf8::encode_utf8(secret).len() <= SECRET_MAX
}

/// Whether every setting is there and the hashing secret can be used.
pub open spec fn complete(
    database_url: Option<String>,
    jwt_secret: Option<String>,
    hash_secret: Option<String>,
    mail_username: Option<String>,
    mail_password: Option<String>,
) -> bool {
    &&& database_url is Some
    &&& jwt_secret is Some
    &&& hash_secret is Some
    &&& usable_hash_secret(hash_secret->0@)
    &&& mail_username is Some
    &&& mail_password is Some
}

impl Setting {
    /// The name under which the setting is looked up.
    pub fn name(&self) -> (name: &'static str)
        ensures
            name@ == name_of(*self),
    {
        match self {
            Setting::DatabaseUrl => "DATABASE_URL",
            Setting::JwtSecret => "JWT_SECRET",
            Setting::HashSecret => "HASH_SECRET",
            Setting::MailUsername => "MAIL_USERNAME",
            Setting::MailPassword => "MAIL_PASSWORD",
        }
    }
}

impl Settings {
    /// The settings, of what the lookup of each name gave. A setting that is
    /// missing, or a hashing secret that cannot be used, is a fault of the
    /// configuration.
    pub fn new(
        database_url: Option<String>,
        jwt_secret: Option<String>,
        hash_secret: Option<String>,
        mail_username: Option<String>,
        mail_password: Option<String>,
    ) -> (settings: Result<Settings, PupilErrorKind>)
        ensures
            match settings {
                Ok(s) => complete(
                    database_url,
                    jwt_secret,
                    hash_secret,
                    mail_username,
                    mail_password,
                ) && Some(s.database_url) == database_url && Some(s.jwt_secret) == jwt_secret
                    && Some(s.hash_secret) == hash_secret && Some(s.mail_username)
                    == mail_username && Some(s.mail_password) == mail_password,
                Err(kind) => kind == PupilErrorKind::EnvVar && !complete(
                    database_url,
                    jwt_secret,
                    hash_secret,
                    mail_username,
                    mail_password,
                ),
            },
    {
        match (database_url, jwt_secret, hash_secret, mail_username, mail_password) {
            (
                Some(database_url),
                Some(jwt_secret),
                Some(hash_secret),
                Some(mail_username),
                Some(mail_password),
            ) => {
                if hash_secret.as_str().as_bytes().len() > SECRET_MAX {
                    Err(PupilErrorKind::EnvVar)
                } else {
                    Ok(
                        Settings {
                            database_url,
                            jwt_secret,
                            hash_secret,
                            mail_username,
                            mail_password,
                        },
                    )
                }
            },
            _ => Err(PupilErrorKind::EnvVar),
        }
    }
}

} // verus!
