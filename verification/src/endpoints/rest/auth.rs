//! Login: the authorization token of a signed-in user.

use vstd::prelude::*;
use vstd::string::*;

use hmac::{Hmac, Mac};
use jwt::SignWithKey;
use sha2::Sha256;
use std::collections::BTreeMap;

use crate::entity::UserModel;
use crate::http::{INTERNAL_SERVER_ERROR, NOT_FOUND, OK, UNAUTHORIZED};
use crate::logic::error::ApiError;
use crate::uid::{uid_hyphenated, uid_text};

verus! {

broadcast use vstd::seq::group_seq_axioms;

/// What signing a JWT whose claims are the map of `claims` (a later pair
/// replacing an earlier one with the same name) with HMAC-SHA256 under `key`
/// gives: the token, or the text of the error.
pub uninterp spec fn hs256_claims_token(key: Seq<u8>, claims: Seq<(Seq<char>, Seq<char>)>) -> Result<
    Seq<char>,
    Seq<char>,
>;

/// The view of a signing result.
pub open spec fn token_view(r: Result<String, String>) -> Result<Seq<char>, Seq<char>> {
    match r {
        Ok(t) => Ok(t@),
        Err(e) => Err(e@),
    }
}

/// The view of claim pairs.
pub open spec fn claims_view(claims: Seq<(String, String)>) -> Seq<(Seq<char>, Seq<char>)> {
    claims.map_values(|c: (String, String)| (c.0@, c.1@))
}

/// Collects the claim pairs into a `BTreeMap` and signs it with `jwt`'s
/// `SignWithKey` under an `Hmac::<Sha256>::new_from_slice(key)` key,
/// rendering an error with its `Display`; the contract ties the result to
/// the named signing.
#[verifier::external_body]
fn sign_claims(key: &[u8], claims: &Vec<(String, String)>) -> (r: Result<String, String>)
    ensures
        token_view(r) == hs256_claims_token(key@, claims_view(claims@)),
{
    let key: Hmac<Sha256> = match Hmac::new_from_slice(key) {
        Ok(k) => k,
        Err(e) => return Err(e.to_string()),
    };
    let map: BTreeMap<&str, &str> = claims.iter().map(|(k, v)| (k.as_str(), v.as_str())).collect();
    match map.sign_with_key(&key) {
        Ok(t) => Ok(t),
        Err(e) => Err(e.to_string()),
    }
}

/// The claims of a login token: its subject, the user's identifier.
pub open spec fn login_claims(user_id: u128) -> Seq<(Seq<char>, Seq<char>)> {
    seq![("sub"@, uid_hyphenated(user_id))]
}

/// The claims of the login token of the user `user_id`.
pub fn subject_claims(user_id: u128) -> (c: Vec<(String, String)>)
    ensures
        claims_view(c@) == login_claims(user_id),
{
    let mut c: Vec<(String, String)> = Vec::new();
    c.push(("sub".to_owned(), uid_text(user_id)));
    assert(claims_view(c@) =~= login_claims(user_id));
    c
}

/// The authorization token of a user who logged in: a JWT whose only claim
/// is its subject, the user's identifier, signed with the instance's signing
/// key. A failure to sign answers with 500.
pub fn login_token(user_id: u128, key: &str) -> (r: Result<String, ApiError>)
    ensures
        hs256_claims_token(key.spec_bytes(), login_claims(user_id)) matches Ok(t) ==> (r matches Ok(
            s,
        ) && s@ == t),
        hs256_claims_token(key.spec_bytes(), login_claims(user_id)) matches Err(m) ==> (r matches Err(
            e,
        ) && e.report@ == m && e.status_code == INTERNAL_SERVER_ERROR),
{
    let claims = subject_claims(user_id);
    match sign_claims(key.as_bytes(), &claims) {
        Ok(t) => Ok(t),
        Err(m) => Err(ApiError::from_report(m)),
    }
}

/// The message of a failed credential check at login.
pub open spec fn validation_failed(m: Seq<char>) -> Seq<char> {
    "Could not validate credentials: "@ + m
}

/// The first step of a login, given the result of checking its
/// credentials: whether they are valid (a token is issued, or the request is
/// answered with 401), or an error answered with 500 when the check failed.
pub fn login_decision(valid: Result<bool, String>) -> (r: Result<bool, ApiError>)
    ensures
        valid matches Ok(b) ==> r == Ok::<bool, ApiError>(b),
        valid matches Err(m) ==> (r matches Err(e) && e.report@ == validation_failed(m@)
            && e.status_code == INTERNAL_SERVER_ERROR),
{
    match valid {
        Ok(b) => Ok(b),
        Err(m) => {
            let mut report = String::new();
            report.append("Could not validate credentials: ");
            report.append(m.as_str());
            Err(ApiError::from_report(report))
        },
    }
}

/// The user who logged in with valid credentials, found by email; a
/// missing user is answered with 404.
pub fn login_user(user: Option<UserModel>) -> (r: Result<UserModel, ApiError>)
    ensures
        user matches Some(u) ==> r == Ok::<UserModel, ApiError>(u),
        user is None ==> (r matches Err(e) && e.report@ == "Could not find user"@ && e.status_code
            == NOT_FOUND),
{
    match user {
        Some(u) => Ok(u),
        None => Err(ApiError::new("Could not find user", NOT_FOUND)),
    }
}

/// The answer to a login once it was decided: 200 with the token as the body
/// when one was issued, 401 with an empty body when the credentials were
/// refused.
pub fn login_response(token: Option<String>) -> (r: (u16, String))
    ensures
        token matches Some(t) ==> r.0 == OK && r.1 == t,
        token is None ==> r.0 == UNAUTHORIZED && r.1@ == Seq::<char>::empty(),
{
    match token {
        Some(t) => (OK, t),
        None => (UNAUTHORIZED, String::new()),
    }
}

} // verus!
