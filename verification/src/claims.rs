//! The claims of a signed token as a list of named values, and the calls
//! that sign such a list and open a signed token again.

use crate::text::{str_eq, text_view};
use jsonwebtoken::{decode, encode, Algorithm, DecodingKey, EncodingKey, Header, Validation};
use serde_json::Value;
use vstd::prelude::*;
use vstd::string::*;

verus! {

/// The value of one claim, as far as this library reads values.
#[derive(Debug, Clone, PartialEq, Eq)]
pub enum ClaimValue {
    /// A whole number that fits 64 bits with a sign.
    Int(i64),
    /// A string.
    Text(String),
    /// True or false.
    Flag(bool),
    /// Any other JSON value.
    Other,
}

/// One named value of a token's payload.
#[derive(Debug, Clone, PartialEq, Eq)]
pub struct Claim {
    pub name: String,
    pub value: ClaimValue,
}

/// What a claim's value is.
pub enum ValueView {
    Int(int),
    Text(Seq<char>),
    Flag(bool),
    Other,
}

/// What a claim is.
pub struct ClaimView {
    pub name: Seq<char>,
    pub value: ValueView,
}

impl View for ClaimValue {
    type V = ValueView;

    open spec fn view(&self) -> ValueView {
        match self {
            ClaimValue::Int(n) => ValueView::Int(*n as int),
            ClaimValue::Text(t) => ValueView::Text(t@),
            ClaimValue::Flag(b) => ValueView::Flag(*b),
            ClaimValue::Other => ValueView::Other,
        }
    }
}

impl View for Claim {
    type V = ClaimView;

    open spec fn view(&self) -> ClaimView {
        ClaimView { name: self.name@, value: self.value@ }
    }
}

/// What a list of claims is.
pub open spec fn claim_views(claims: Seq<Claim>) -> Seq<ClaimView> {
    claims.map_values(|c: Claim| c@)
}

/// What a list of claims is, where there is one.
pub open spec fn payload_view(claims: Option<Vec<Claim>>) -> Option<Seq<ClaimView>> {
    match claims {
        Some(list) => Some(claim_views(list@)),
        None => None,
    }
}

/// No name stands twice in the list.
pub open spec fn distinct_names(claims: Seq<ClaimView>) -> bool {
    forall|i: int, j: int|
        0 <= i < j < claims.len() ==> (#[trigger] claims[i]).name != (#[trigger] claims[j]).name
}

/// The value of the first claim of a name.
pub open spec fn find(claims: Seq<ClaimView>, name: Seq<char>) -> Option<ValueView>
    decreases claims.len(),
{
    if claims.len() == 0 {
        None
    } else if claims[0].name == name {
        Some(claims[0].value)
    } else {
        find(claims.drop_first(), name)
    }
}

/// The token that `jsonwebtoken::encode` makes of a JSON object with the
/// given members, in their order, under the default header and a secret; or
/// nothing where it reports an error.
pub uninterp spec fn jwt_text(claims: Seq<ClaimView>, secret: Seq<char>) -> Option<Seq<char>>;

/// The members of the payload that `jsonwebtoken::decode` returns for a
/// token and a secret where HS256 is the one algorithm allowed and no claim
/// is validated; or nothing where it reports an error.
pub uninterp spec fn jwt_claims(token: Seq<char>, secret: Seq<char>) -> Option<Seq<ClaimView>>;

/// Calls `jsonwebtoken::encode` with `Header::default()` on a
/// `serde_json::Map` that holds the claims in their order: the map keeps the
/// order of insertion, as `serde_json` is built with `preserve_order`. A
/// value of the kind `Other` goes in as null.
///
/// The contract names the token. It also claims what the crate is for: a
/// token that `encode` made is opened by `decode` under the same secret, and
/// the payload comes back as it went in. A name that stands twice goes in
/// once, so that claim is made for lists of distinct names.
#[verifier::external_body]
pub(crate) fn sign_claims(claims: &Vec<Claim>, secret: &str) -> (token: Option<String>)
    ensures
        text_view(token) == jwt_text(claim_views(claims@), secret@),
        token matches Some(t) ==> (distinct_names(claim_views(claims@)) ==> jwt_claims(
            t@,
            secret@,
        ) == Some(claim_views(claims@))),
{
    let mut object = serde_json::Map::new();
    for claim in claims {
        let value = match &claim.value {
            ClaimValue::Int(n) => Value::from(*n),
            ClaimValue::Text(t) => Value::from(t.as_str()),
            ClaimValue::Flag(b) => Value::from(*b),
            ClaimValue::Other => Value::Null,
        };
        object.insert(claim.name.clone(), value);
    }
    encode(&Header::default(), &object, &EncodingKey::from_secret(secret.as_bytes())).ok()
}

/// Calls `jsonwebtoken::decode` for a `serde_json::Map`, with a `Validation`
/// that allows HS256 alone and checks the signature and no claim, so that the
/// answer does not depend on the clock. A member that is a flag, a string or
/// a whole number of 64 bits with a sign comes out as such, any other as
/// `Other`. The contract names the answer.
#[verifier::external_body]
pub(crate) fn open_token(token: &str, secret: &str) -> (claims: Option<Vec<Claim>>)
    ensures
        payload_view(claims) == jwt_claims(token@, secret@),
{
    let mut checks = Validation::new(Algorithm::HS256);
    checks.validate_exp = false;
    checks.validate_aud = false;
    checks.required_spec_claims.clear();
    let key = DecodingKey::from_secret(secret.as_bytes());
    let object = decode::<serde_json::Map<String, Value>>(token, &key, &checks).ok()?.claims;
    Some(object.into_iter().map(|(name, value)| Claim { name, value: match value {
        Value::Bool(b) => ClaimValue::Flag(b),
        Value::String(t) => ClaimValue::Text(t),
        Value::Number(n) => n.as_i64().map_or(ClaimValue::Other, ClaimValue::Int),
        _ => ClaimValue::Other,
    } }).collect())
}

/// The value of the first claim of a name.
pub fn lookup<'a>(claims: &'a Vec<Claim>, name: &str) -> (value: Option<&'a ClaimValue>)
    ensures
        match value {
            Some(v) => find(claim_views(claims@), name@) == Some(v@),
            None => find(claim_views(claims@), name@).is_none(),
        },
{
    let mut i: usize = 0;
    assert(claim_views(claims@).skip(0) =~= claim_views(claims@));
    while i < claims.len()
        invariant
            i <= claims@.len(),
            find(claim_views(claims@), name@) == find(claim_views(claims@).skip(i as int), name@),
        decreases claims@.len() - i,
    {
        let ghost rest = claim_views(claims@).skip(i as int);
        assert(rest[0] == claims@[i as int]@);
        assert(rest.drop_first() =~= claim_views(claims@).skip(i + 1));
        if str_eq(claims[i].name.as_str(), name) {
            return Some(&claims[i].value);
        }
        i += 1;
    }
    None
}

} // verus!
