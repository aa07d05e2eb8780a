//! Password hashing with Argon2i, and the check of a password against a
//! stored hash.

use crate::phc::{hash_shaped, is_hash_text, lemma_hash_text_is_ascii, LANES_MAX, MEMORY_KIB_MAX};
use crate::text::{random_bytes, text_of_bytes, text_view};
use vstd::prelude::*;
use vstd::string::*;
use vstd::utf8::*;

verus! {

/// The number of random bytes in a salt.
pub const SALT_LENGTH: usize = 64;

/// The number of passes over the memory.
pub const TIME_COST: u32 = 10;

/// The number of lanes that are filled in parallel.
pub const LANES: u32 = 1;

/// The memory that one hash takes, in KiB.
pub const MEMORY_KIB: u32 = 4096;

/// The longest secret that Argon2 takes as its key, in bytes.
pub const SECRET_MAX: usize = 32;

/// The longest password, salt or username that Argon2 takes, in bytes.
pub const INPUT_MAX: usize = 0xffff_ffff;

/// The 32 bytes that `argon2rs::Argon2::hash` writes for Argon2i with the
/// given costs, password, salt, key and associated data.
pub uninterp spec fn argon2i_digest(
    passes: u32,
    lanes: u32,
    kib: u32,
    pass: Seq<u8>,
    salt: Seq<u8>,
    key: Seq<u8>,
    data: Seq<u8>,
) -> Seq<u8>;

/// The text that `argon2rs::verifier::Encoded::to_u8` writes for the session
/// that `Encoded::new` makes of an Argon2i hasher with the given costs and of
/// the given password, salt, key and associated data.
pub uninterp spec fn argon2i_text(
    passes: u32,
    lanes: u32,
    kib: u32,
    pass: Seq<u8>,
    salt: Seq<u8>,
    key: Seq<u8>,
    data: Seq<u8>,
) -> Seq<u8>;

/// What `Encoded::verify` answers for a password on the session that
/// `Encoded::from_u8` reads from a text, and false where it reads none.
pub uninterp spec fn argon2_accepts(hash: Seq<u8>, pass: Seq<u8>) -> bool;

/// Calls `Argon2::new`, `Encoded::new` and `Encoded::to_u8` of `argon2rs`.
///
/// The `requires` keeps to the costs that `Argon2::new` accepts, within the
/// bounds that this library puts on memory and lanes, and to the lengths
/// that `Argon2::hash` asserts. The contract names the text. It also
/// claims what the crate documents of `to_u8`, that `from_u8` recovers the
/// session from it, as far as its source bears that out: a text with a key
/// and without associated data is not read back. On the recovered session
/// `verify` hashes a password with the stored costs, salt, key and data and
/// compares the digest with the stored one.
#[verifier::external_body]
fn argon2i_encode(
    passes: u32,
    lanes: u32,
    kib: u32,
    pass: &[u8],
    salt: &[u8],
    key: &[u8],
    data: &[u8],
) -> (text: Vec<u8>)
    requires
        1 <= passes,
        1 <= lanes <= LANES_MAX,
        8 * lanes <= kib <= MEMORY_KIB_MAX,
        pass@.len() <= INPUT_MAX,
        8 <= salt@.len() <= INPUT_MAX,
        key@.len() <= SECRET_MAX,
        data@.len() <= INPUT_MAX,
    ensures
        text@ == argon2i_text(passes, lanes, kib, pass@, salt@, key@, data@),
        (key@.len() == 0 || data@.len() > 0) ==> forall|other: Seq<u8>|
            other.len() <= INPUT_MAX ==> #[trigger] argon2_accepts(text@, other) == (
            argon2i_digest(passes, lanes, kib, other, salt@, key@, data@) == argon2i_digest(
                passes,
                lanes,
                kib,
                pass@,
                salt@,
                key@,
                data@,
            )),
{
    let hasher = argon2rs::Argon2::new(passes, lanes, kib, argon2rs::Variant::Argon2i).unwrap();
    argon2rs::verifier::Encoded::new(hasher, pass, salt, key, data).to_u8()
}

/// Calls `Encoded::from_u8` and, on the session it returns, `Encoded::verify`.
///
/// `from_u8` indexes past the end of a text that stops early, and `verify`
/// asserts a salt of 8 bytes at least and a key of 32 at most: the `requires`
/// admits only texts of the shape that this library looks for, on which
/// neither happens. The shape also bounds the memory and the lanes that
/// `verify` allocates and starts threads for. The contract names the answer.
#[verifier::external_body]
fn argon2_check(hash: &[u8], pass: &[u8]) -> (ok: bool)
    requires
        hash_shaped(hash@),
        pass@.len() <= INPUT_MAX,
    ensures
        ok == argon2_accepts(hash@, pass@),
{
    match argon2rs::verifier::Encoded::from_u8(hash) {
        Ok(session) => session.verify(pass),
        Err(_) => false,
    }
}

/// Whether a password can be hashed for a username under a secret with a
/// salt: each within the lengths that Argon2 takes, and a username wherever
/// there is a secret, since a hash with a key and without associated data
/// cannot be read back.
pub open spec fn can_hash(username: Seq<u8>, pass: Seq<u8>, secret: Seq<u8>, salt: Seq<u8>) -> bool {
    &&& pass.len() <= INPUT_MAX
    &&& username.len() <= INPUT_MAX
    &&& secret.len() <= SECRET_MAX
    &&& 8 <= salt.len() <= INPUT_MAX
    &&& (secret.len() == 0 || username.len() > 0)
}

/// The digest of a password under this library's costs.
pub open spec fn digest_of(
    username: Seq<char>,
    pass: Seq<char>,
    secret: Seq<char>,
    salt: Seq<u8>,
) -> Seq<u8> {
    argon2i_digest(
        TIME_COST,
        LANES,
        MEMORY_KIB,
        encode_utf8(pass),
        salt,
        encode_utf8(secret),
        encode_utf8(username),
    )
}

/// The hash text of a password under this library's costs.
pub open spec fn hash_text_of(
    username: Seq<char>,
    pass: Seq<char>,
    secret: Seq<char>,
    salt: Seq<u8>,
) -> Seq<u8> {
    argon2i_text(
        TIME_COST,
        LANES,
        MEMORY_KIB,
        encode_utf8(pass),
        salt,
        encode_utf8(secret),
        encode_utf8(username),
    )
}

/// The hash that is handed out for a password: the hash text, where the
/// inputs can be hashed and the text has the shape that verification looks
/// for; else nothing.
pub open spec fn hashed(
    username: Seq<char>,
    pass: Seq<char>,
    secret: Seq<char>,
    salt: Seq<u8>,
) -> Option<Seq<char>> {
    let text = hash_text_of(username, pass, secret, salt);
    if can_hash(encode_utf8(username), encode_utf8(pass), encode_utf8(secret), salt)
        && hash_shaped(text) {
        Some(decode_utf8(text))
    } else {
        None
    }
}

/// Whether a password is accepted for a stored hash: the hash has the shape
/// of one, the password is no longer than Argon2 takes, and Argon2 accepts
/// it.
pub open spec fn password_matches(hash: Seq<char>, pass: Seq<char>) -> bool {
    &&& hash_shaped(encode_utf8(hash))
    &&& encode_utf8(pass).len() <= INPUT_MAX
    &&& argon2_accepts(encode_utf8(hash), encode_utf8(pass))
}

/// A hash accepts a password exactly where Argon2 gives that password the
/// digest of the password that the hash was made of. The password itself is
/// among them; another one is only where the two digests collide.
pub open spec fn accepts_by_digest(
    hash: Seq<char>,
    username: Seq<char>,
    pass: Seq<char>,
    secret: Seq<char>,
    salt: Seq<u8>,
) -> bool {
    forall|other: Seq<char>|
        encode_utf8(other).len() <= INPUT_MAX ==> #[trigger] password_matches(hash, other) == (
        digest_of(username, other, secret, salt) == digest_of(username, pass, secret, salt))
}

/// Hashes a password with a given salt, the secret as the key and the
/// username as associated data.
///
/// The hash that is handed out accepts the password it was made of, and any
/// other password exactly where Argon2 gives both the same digest.
pub fn hash_with_salt(username: &str, pass: &str, secret: &str, salt: &[u8]) -> (hash: Option<
    String,
>)
    ensures
        text_view(hash) == hashed(username@, pass@, secret@, salt@),
        hash matches Some(h) ==> password_matches(h@, pass@),
        hash matches Some(h) ==> accepts_by_digest(h@, username@, pass@, secret@, salt@),
{
    let data = username.as_bytes();
    let word = pass.as_bytes();
    let key = secret.as_bytes();
    if word.len() > INPUT_MAX || data.len() > INPUT_MAX || key.len() > SECRET_MAX || salt.len()
        < 8 || salt.len() > INPUT_MAX || (key.len() > 0 && data.len() == 0) {
        return None;
    }
    let bytes = argon2i_encode(TIME_COST, LANES, MEMORY_KIB, word, salt, key, data);
    if !is_hash_text(bytes.as_slice()) {
        return None;
    }
    proof {
        lemma_hash_text_is_ascii(bytes@);
    }
    let hash = text_of_bytes(bytes);
    proof {
        if let Some(h) = &hash {
            encode_utf8_decode_utf8(h@);
            assert(argon2_accepts(encode_utf8(h@), encode_utf8(pass@)));
            assert forall|other: Seq<char>|
                encode_utf8(other).len() <= INPUT_MAX implies #[trigger] password_matches(
                h@,
                other,
            ) == (digest_of(username@, other, secret@, salt@) == digest_of(
                username@,
                pass@,
                secret@,
                salt@,
            )) by {
                assert(argon2_accepts(encode_utf8(h@), encode_utf8(other)) == (digest_of(
                    username@,
                    other,
                    secret@,
                    salt@,
                ) == digest_of(username@, pass@, secret@, salt@)));
            }
        }
    }
    hash
}

/// Hashes a password with a fresh random salt of `SALT_LENGTH` bytes.
///
/// Whatever the salt, the hash that is handed out accepts the password it
/// was made of.
pub fn hash_password(username: &str, pass: &str, secret: &str) -> (hash: Option<String>)
    ensures
        exists|salt: Seq<u8>|
            salt.len() == SALT_LENGTH && text_view(hash) == #[trigger] hashed(
                username@,
                pass@,
                secret@,
                salt,
            ) && (hash matches Some(h) ==> accepts_by_digest(
                h@,
                username@,
                pass@,
                secret@,
                salt,
            )),
        hash matches Some(h) ==> password_matches(h@, pass@),
{
    let salt = random_bytes(SALT_LENGTH);
    let hash = hash_with_salt(username, pass, secret, salt.as_slice());
    assert(text_view(hash) == hashed(username@, pass@, secret@, salt@));
    hash
}

/// Checks a password against a stored hash. A text that is no hash is turned
/// down like a wrong password.
pub fn verify_password(hash: &str, pass: &str) -> (ok: bool)
    ensures
        ok == password_matches(hash@, pass@),
{
    let text = hash.as_bytes();
    let word = pass.as_bytes();
    if word.len() > INPUT_MAX || !is_hash_text(text) {
        return false;
    }
    argon2_check(text, word)
}

} // verus!
