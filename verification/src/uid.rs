//! Unique identifiers, held as the 128-bit value of a UUID.

use vstd::prelude::*;
use vstd::arithmetic::power::pow;

use std::str::FromStr;
use uuid::Uuid;

verus! {

/// Lower-case hexadecimal digit of a value below sixteen.
pub open spec fn hex_digit(n: int) -> char {
    if n < 10 {
        ((n + 48) as u8) as char
    } else {
        ((n + 87) as u8) as char
    }
}

/// The `i`-th hexadecimal digit of `v`, counted from the most significant.
pub open spec fn uid_nibble(v: u128, i: int) -> int {
    (v as int / pow(16, (31 - i) as nat)) % 16
}

/// The 32 hexadecimal digits of `v`, most significant first.
pub open spec fn uid_hex(v: u128) -> Seq<char> {
    Seq::new(32, |i: int| hex_digit(uid_nibble(v, i)))
}

/// The hyphenated lower-case text of a UUID: 8-4-4-4-12 hexadecimal digits.
pub open spec fn uid_hyphenated(v: u128) -> Seq<char> {
    let h = uid_hex(v);
    h.subrange(0, 8) + seq!['-'] + h.subrange(8, 12) + seq!['-'] + h.subrange(12, 16) + seq!['-']
        + h.subrange(16, 20) + seq!['-'] + h.subrange(20, 32)
}

/// The bits that mark a UUID as version 4, variant RFC 4122.
pub open spec fn is_random_uid(v: u128) -> bool {
    v & 0x0000_0000_0000_F000_C000_0000_0000_0000u128 == 0x0000_0000_0000_4000_8000_0000_0000_0000u128
}

/// What `Uuid::from_str` reads from `s`: the UUID's 128-bit value, or the
/// text its error's `Display` writes.
pub uninterp spec fn uuid_from_str(s: Seq<char>) -> Result<u128, Seq<char>>;

/// Renders a UUID with `Uuid`'s `Display`, which writes the hyphenated
/// lower-case form of its big-endian bytes; the contract states that form.
#[verifier::external_body]
pub(crate) fn uid_text(v: u128) -> (s: String)
    ensures
        s@ == uid_hyphenated(v),
{
    Uuid::from_u128(v).to_string()
}

/// A fresh random UUID from `Uuid::new_v4`. The contract claims only the
/// version and variant bits, which `new_v4` sets on every value.
#[verifier::external_body]
pub(crate) fn new_v4_uid() -> (v: u128)
    ensures
        is_random_uid(v),
{
    Uuid::new_v4().as_u128()
}

/// The view of a parsed identifier or error text.
pub open spec fn parsed_view(r: Result<u128, String>) -> Result<u128, Seq<char>> {
    match r {
        Ok(v) => Ok(v),
        Err(m) => Err(m@),
    }
}

/// Reads a UUID with `Uuid::from_str`, rendering an error with its
/// `Display`; the contract ties the result to the named reading of `s`.
#[verifier::external_body]
pub(crate) fn parse_uid(s: &str) -> (r: Result<u128, String>)
    ensures
        parsed_view(r) == uuid_from_str(s@),
{
    match Uuid::from_str(s) {
        Ok(u) => Ok(u.as_u128()),
        Err(e) => Err(e.to_string()),
    }
}

} // verus!
