//! Accounts created at sign-up.

use vstd::prelude::*;
use vstd::string::*;
use vstd::utf8::encode_utf8;

use argon2::password_hash::rand_core::OsRng;
use argon2::password_hash::SaltString;
use argon2::{Argon2, PasswordHasher};

use crate::controller::calendars::{create_calendar_for_user, CalendarData};
use crate::controller::jwt::{argon2_check, spec_validate_credentials};
use crate::entity::{CalendarModel, UserModel};
use crate::uid::{is_random_uid, new_v4_uid};

verus! {

broadcast use vstd::seq::group_seq_axioms;

/// What a new account is made of.
#[derive(Debug, Clone)]
pub struct SignUpData {
    pub email: String,
    /// A password in plain text
    pub password: String,
    pub first_name: String,
    pub affix: Option<String>,
    pub last_name: String,
    pub display_name: String,
}

/// Whether a successful hashing result passes the check for `password`.
pub open spec fn hash_accepts(r: Result<String, String>, password: Seq<u8>) -> bool {
    r matches Ok(h) ==> argon2_check(h@, password) == Ok::<bool, Seq<char>>(true)
}

/// Whether a text starts as an Argon2id, version 19 PHC string does:
/// `$argon2id$v=19$`.
pub open spec fn is_argon2id_phc(h: Seq<char>) -> bool {
    h.len() >= 15 && h.take(15) == "$argon2id$v=19$"@
}

/// The longest password Argon2 hashes, in bytes (`argon2::MAX_PWD_LEN`).
pub const MAX_PASSWORD_LEN: u64 = 0xFFFF_FFFFu64;

/// Hashes a password with `Argon2::default().hash_password` and a salt from
/// `SaltString::generate(&mut OsRng)`, as a PHC string. The salt is random,
/// so the contract claims of the hash only that it passes the named check
/// for the same password, which `verify_password` recomputing the hash from
/// the salt and parameters in the string guarantees. With the default
/// parameters and a generated 16-byte salt, the only error hashing reports is
/// `PwdTooLong`, for a password longer than `MAX_PWD_LEN` bytes; the text of
/// that error is left unsaid. `PasswordHash`'s `Display` writes `$`, the
/// algorithm (`argon2id` by default), `$v=` and the version (19 by default),
/// then the parameters, salt and hash, each after a `$`.
#[verifier::external_body]
pub(crate) fn hash_password(password: &[u8]) -> (r: Result<String, String>)
    ensures
        r is Ok <==> password@.len() <= MAX_PASSWORD_LEN,
        hash_accepts(r, password@),
        r matches Ok(h) ==> is_argon2id_phc(h@),
{
    let salt = SaltString::generate(&mut OsRng);
    match Argon2::default().hash_password(password, &salt) {
        Ok(h) => Ok(h.to_string()),
        Err(e) => Err(e.to_string()),
    }
}

/// The title of a user's first calendar.
pub open spec fn first_calendar_title(display_name: Seq<char>) -> Seq<char> {
    display_name + "'s calendar"@
}

/// The colour of a user's first calendar.
pub open spec fn first_calendar_colour() -> Seq<char> {
    "#63a6d7"@
}

/// The records of a new account and its first calendar: the password is
/// stored hashed, the user gets a fresh identifier, and the calendar,
/// owned by the user, is titled after the display name. It fails exactly
/// when the password is too long for Argon2.
pub fn create_user_with_calendar(data: SignUpData) -> (r: Result<(UserModel, CalendarModel), String>)
    ensures
        r is Ok <==> encode_utf8(data.password@).len() <= MAX_PASSWORD_LEN,
        r matches Ok((u, c)) ==> {
            &&& argon2_check(u.password@, encode_utf8(data.password@)) == Ok::<bool, Seq<char>>(true)
            &&& u.email == data.email
            &&& u.first_name == data.first_name
            &&& u.last_name == data.last_name
            &&& u.affix == data.affix
            &&& u.display_name == data.display_name
            &&& is_argon2id_phc(u.password@)
            &&& is_random_uid(u.id)
            &&& c.owner == u.id
            &&& is_random_uid(c.id)
            &&& is_random_uid(c.c_tag)
            &&& c.title@ == first_calendar_title(data.display_name@)
            &&& c.colour@ == first_calendar_colour()
        },
{
    let password_hash = match hash_password(data.password.as_str().as_bytes()) {
        Ok(h) => h,
        Err(e) => return Err(e),
    };
    let user_id = new_v4_uid();
    let mut title = data.display_name.clone();
    title.append("'s calendar");
    let mut colour = String::new();
    colour.append("#63a6d7");
    let calendar = create_calendar_for_user(user_id, CalendarData { title, colour });
    let user = UserModel {
        id: user_id,
        email: data.email,
        password: password_hash,
        first_name: data.first_name,
        last_name: data.last_name,
        affix: data.affix,
        display_name: data.display_name,
    };
    Ok((user, calendar))
}

/// An account created at sign-up accepts, at login, the password it was
/// created with.
pub proof fn lemma_sign_up_then_log_in(user: UserModel, password: Seq<char>)
    requires
        argon2_check(user.password@, encode_utf8(password)) == Ok::<bool, Seq<char>>(true),
    ensures
        spec_validate_credentials(Some(user.password@), encode_utf8(password)) == Ok::<
            bool,
            Seq<char>,
        >(true),
{
}

} // verus!
