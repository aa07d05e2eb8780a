//! Small helpers on strings that the rest of the library shares.

use vstd::prelude::*;
use vstd::string::*;
use vstd::utf8::*;

verus! {

/// What `serde_json::to_string` returns for a string: the string as one JSON
/// string literal, quoted and escaped, or nothing where it reports an error.
pub uninterp spec fn json_quoted(text: Seq<char>) -> Option<Seq<char>>;

/// Calls `serde_json::to_string` on a string slice. The contract names the
/// result and claims no more: what comes back depends on the text alone.
#[verifier::external_body]
pub(crate) fn to_json_string(text: &str) -> (quoted: Option<String>)
    ensures
        quoted.is_some() == json_quoted(text@).is_some(),
        quoted matches Some(q) ==> json_quoted(text@) == Some(q@),
{
    serde_json::to_string(text).ok()
}

/// Calls `String::from_utf8`: the string that the bytes spell in UTF-8, or
/// nothing where they spell none.
#[verifier::external_body]
pub(crate) fn text_of_bytes(bytes: Vec<u8>) -> (text: Option<String>)
    ensures
        text.is_some() == valid_utf8(bytes@),
        text matches Some(t) ==> encode_utf8(t@) == bytes@,
{
    String::from_utf8(bytes).ok()
}

/// Calls `RngCore::fill_bytes` on `rand::thread_rng()` over a buffer of
/// `count` bytes. Of the bytes nothing is claimed but their number.
#[verifier::external_body]
pub(crate) fn random_bytes(count: usize) -> (bytes: Vec<u8>)
    ensures
        bytes@.len() == count,
{
    let mut bytes = vec![0u8; count];
    rand::RngCore::fill_bytes(&mut rand::thread_rng(), &mut bytes);
    bytes
}

/// Calls `Rng::gen` on `rand::thread_rng()` for one `u64`. Nothing is
/// claimed of the number.
#[verifier::external_body]
pub(crate) fn random_u64() -> (number: u64) {
    rand::Rng::gen(&mut rand::thread_rng())
}

/// The views of an optional string.
pub open spec fn text_view(text: Option<String>) -> Option<Seq<char>> {
    match text {
        Some(t) => Some(t@),
        None => None,
    }
}

/// Whether two strings hold the same characters.
pub fn str_eq(a: &str, b: &str) -> (same: bool)
    ensures
        same == (a@ == b@),
{
    let x = a.as_bytes();
    let y = b.as_bytes();
    proof {
        encode_utf8_decode_utf8(a@);
        encode_utf8_decode_utf8(b@);
    }
    if x.len() != y.len() {
        return false;
    }
    let mut i: usize = 0;
    while i < x.len()
        invariant
            x@.len() == y@.len(),
            x@ == a.spec_bytes(),
            y@ == b.spec_bytes(),
            i <= x@.len(),
            forall|j: int| 0 <= j < i ==> x@[j] == y@[j],
        decreases x@.len() - i,
    {
        if x[i] != y[i] {
            return false;
        }
        i += 1;
    }
    assert(x@ =~= y@);
    true
}

} // verus!
