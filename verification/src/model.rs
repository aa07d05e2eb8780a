//! The records that the flows read and write: plain data, held by storage.

use vstd::prelude::*;

verus! {

/// A stored account.
#[derive(Debug, Clone, PartialEq, Eq)]
pub struct User {
    pub id: i32,
    pub name: String,
    pub email: String,
    pub username: String,
    /// The password hash, never the password.
    pub pass: String,
    /// Whether the email address was confirmed.
    pub conf: bool,
}

/// An account that is about to be stored.
#[derive(Debug, Clone, Copy, PartialEq, Eq)]
pub struct NewUser<'a> {
    pub name: &'a str,
    pub email: &'a str,
    pub username: &'a str,
    /// The password hash.
    pub pass: &'a str,
}

/// An account without its password hash: what a session may carry around.
#[derive(Debug, Clone, PartialEq, Eq)]
pub struct SafeUser {
    pub id: i32,
    pub name: String,
    pub email: String,
    pub username: String,
}

/// The credentials of a login attempt. They hold a password: the type
/// cannot be printed.
#[derive(Clone, PartialEq, Eq)]
pub struct Login {
    pub username: String,
    pub password: String,
}

/// A stored confirmation record.
#[derive(Debug, Clone, PartialEq, Eq)]
pub struct Conf {
    pub id: i32,
    /// When the record was made, in seconds since the epoch.
    pub created: i64,
    pub userid: i32,
    pub username: String,
    /// The token of the mailed link.
    pub link: String,
}

/// A confirmation record that is about to be stored.
#[derive(Debug, Clone, Copy, PartialEq, Eq)]
pub struct NewConf<'a> {
    /// When the record was made, in seconds since the epoch.
    pub created: i64,
    pub userid: i32,
    pub username: &'a str,
    /// The token of the mailed link.
    pub link: &'a str,
}

/// The hash that both accounts of the test fixture share.
pub open spec fn mock_hash() -> Seq<char> {
    "$argon2i$m=4096,t=10,p=1,keyid=c2VjcmV0,data=anNtaXRo$elvekjRXU/2NqdkYTxb8T155N1QiXMAYhTWdX+vtyOm+kM81W27CsdOsMabqYkYaM3qKdhOKZuxS0v8bZojvLg$Mqnr5Isv3B3LzWU8WjNFDSklhOf8sANtS41PHBVJtFk"@
}

impl User {
    /// The first account of the test fixture: confirmed, with id 1.
    pub fn mock_john() -> (user: User)
        ensures
            user.id == 1,
            user.name@ == "John Smith"@,
            user.email@ == "jsmith@website.com"@,
            user.username@ == "jsmith"@,
            user.pass@ == mock_hash(),
            user.conf,
    {
        User {
            id: 1,
            name: "John Smith".to_owned(),
            email: "jsmith@website.com".to_owned(),
            username: "jsmith".to_owned(),
            pass: "$argon2i$m=4096,t=10,p=1,keyid=c2VjcmV0,data=anNtaXRo$elvekjRXU/2NqdkYTxb8T155N1QiXMAYhTWdX+vtyOm+kM81W27CsdOsMabqYkYaM3qKdhOKZuxS0v8bZojvLg$Mqnr5Isv3B3LzWU8WjNFDSklhOf8sANtS41PHBVJtFk".to_owned(),
            conf: true,
        }
    }

    /// The second account of the test fixture: not confirmed, with id 2.
    pub fn mock_jane() -> (user: User)
        ensures
            user.id == 2,
            user.name@ == "Jane Doe"@,
            user.email@ == "jdoe@website.com"@,
            user.username@ == "jdoe"@,
            user.pass@ == mock_hash(),
            !user.conf,
    {
        User {
            id: 2,
            name: "Jane Doe".to_owned(),
            email: "jdoe@website.com".to_owned(),
            username: "jdoe".to_owned(),
            pass: "$argon2i$m=4096,t=10,p=1,keyid=c2VjcmV0,data=anNtaXRo$elvekjRXU/2NqdkYTxb8T155N1QiXMAYhTWdX+vtyOm+kM81W27CsdOsMabqYkYaM3qKdhOKZuxS0v8bZojvLg$Mqnr5Isv3B3LzWU8WjNFDSklhOf8sANtS41PHBVJtFk".to_owned(),
            conf: false,
        }
    }
}

impl From<User> for SafeUser {
    fn from(user: User) -> (safe: SafeUser) {
        SafeUser { id: user.id, name: user.name, email: user.email, username: user.username }
    }
}

impl vstd::std_specs::convert::FromSpecImpl<User> for SafeUser {
    open spec fn obeys_from_spec() -> bool {
        true
    }

    open spec fn from_spec(user: User) -> SafeUser {
        SafeUser { id: user.id, name: user.name, email: user.email, username: user.username }
    }
}

} // verus!
