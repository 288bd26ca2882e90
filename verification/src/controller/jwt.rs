//! Credentials and the key that signs authorization tokens.

use vstd::prelude::*;
use vstd::string::*;

use argon2::{Argon2, PasswordHash, PasswordVerifier};
use rand::distr::Alphanumeric;
use rand::{rng, Rng};

use crate::entity::InstanceSettingModel;

verus! {

broadcast use vstd::seq::group_seq_axioms;

/// What checking `password` against the PHC string `hash` gives:
/// `Err` with the error's text when `PasswordHash::new` rejects the string,
/// otherwise whether `Argon2::default().verify_password` accepts the
/// password.
pub uninterp spec fn argon2_check(hash: Seq<char>, password: Seq<u8>) -> Result<bool, Seq<char>>;

/// The view of a check's result.
pub open spec fn check_view(r: Result<bool, String>) -> Result<bool, Seq<char>> {
    match r {
        Ok(b) => Ok(b),
        Err(m) => Err(m@),
    }
}

/// Parses a PHC string with `PasswordHash::new` and checks a password
/// against it with `Argon2::default().verify_password`, taking any
/// verification error as a mismatch; the contract ties the result to the
/// named check.
#[verifier::external_body]
pub(crate) fn verify_password(hash: &str, password: &[u8]) -> (r: Result<bool, String>)
    ensures
        check_view(r) == argon2_check(hash@, password@),
{
    match PasswordHash::new(hash) {
        Ok(parsed) => Ok(Argon2::default().verify_password(password, &parsed).is_ok()),
        Err(e) => Err(e.to_string()),
    }
}

/// What checking a password against a user's stored hash gives: `Ok(false)`
/// when there is no such user.
pub open spec fn spec_validate_credentials(stored: Option<Seq<char>>, password: Seq<u8>) -> Result<
    bool,
    Seq<char>,
> {
    match stored {
        None => Ok(false),
        Some(h) => argon2_check(h, password),
    }
}

/// The view of an optional stored hash.
pub open spec fn opt_hash(stored: Option<&str>) -> Option<Seq<char>> {
    match stored {
        Some(h) => Some(h@),
        None => None,
    }
}

/// Checks a password against the stored hash of the user found by email.
pub fn validate_credentials(stored: Option<&str>, password: &str) -> (r: Result<bool, String>)
    ensures
        check_view(r) == spec_validate_credentials(opt_hash(stored), password.spec_bytes()),
{
    match stored {
        None => Ok(false),
        Some(h) => verify_password(h, password.as_bytes()),
    }
}

/// Whether a character is an ASCII letter or digit.
pub open spec fn is_alphanumeric(c: char) -> bool {
    ('A' <= c <= 'Z') || ('a' <= c <= 'z') || ('0' <= c <= '9')
}

/// Draws `n` characters from `rand`'s `Alphanumeric` distribution with the
/// thread-local generator. The contract claims only the length and that
/// every character is an ASCII letter or digit.
#[verifier::external_body]
pub(crate) fn random_alphanumeric(n: usize) -> (s: String)
    ensures
        s@.len() == n,
        forall|i: int| 0 <= i < n ==> is_alphanumeric(#[trigger] s@[i]),
{
    rng().sample_iter(&Alphanumeric).take(n).map(char::from).collect()
}

/// The setting that holds the signing key.
pub open spec fn signing_key_name() -> Seq<char> {
    "AUTH_JWT_SIGNING_KEY"@
}

/// The name of the setting that holds the signing key.
pub fn signing_key_setting() -> (s: &'static str)
    ensures
        s@ == signing_key_name(),
{
    "AUTH_JWT_SIGNING_KEY"
}

/// The number of characters of a new signing key.
pub const SIGNING_KEY_LENGTH: usize = 128;

/// The signing key for authorization tokens: the stored one when the
/// setting exists, otherwise a new key of 128 letters and digits together
/// with the setting to store.
pub fn get_jwt_signing_key(existing: Option<&InstanceSettingModel>) -> (r: (String, Option<InstanceSettingModel>))
    ensures
        existing matches Some(s) ==> r.0@ == s.value@ && r.1 is None,
        existing is None ==> ({
            &&& r.0@.len() == SIGNING_KEY_LENGTH
            &&& forall|i: int| 0 <= i < r.0@.len() ==> is_alphanumeric(#[trigger] r.0@[i])
            &&& r.1 matches Some(s) && s.key@ == signing_key_name() && s.value@ == r.0@
        }),
{
    match existing {
        Some(s) => (s.value.clone(), None),
        None => {
            let key = random_alphanumeric(SIGNING_KEY_LENGTH);
            let setting = InstanceSettingModel {
                key: signing_key_setting().to_owned(),
                value: key.clone(),
            };
            (key, Some(setting))
        },
    }
}

} // verus!
