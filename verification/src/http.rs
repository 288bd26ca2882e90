//! HTTP status codes and the request-header values the handlers read.

use vstd::prelude::*;
use vstd::string::*;
use vstd::utf8::*;

use crate::text::{nat_decimal, u64_decimal};

verus! {

broadcast use vstd::seq::group_seq_axioms;

/// 200 OK
pub const OK: u16 = 200;

/// 201 Created
pub const CREATED: u16 = 201;

/// 207 Multi-Status
pub const MULTI_STATUS: u16 = 207;

/// 400 Bad Request
pub const BAD_REQUEST: u16 = 400;

/// 401 Unauthorized
pub const UNAUTHORIZED: u16 = 401;

/// 403 Forbidden
pub const FORBIDDEN: u16 = 403;

/// 404 Not Found
pub const NOT_FOUND: u16 = 404;

/// 500 Internal Server Error
pub const INTERNAL_SERVER_ERROR: u16 = 500;

/// Whether a number is a status code that `http::StatusCode` accepts.
pub open spec fn valid_status(code: int) -> bool {
    100 <= code <= 999
}

/// The canonical reason phrase `http::StatusCode::canonical_reason` gives
/// for a status code, if it knows one.
pub uninterp spec fn http_canonical_reason(code: int) -> Option<Seq<char>>;

/// Looks up the reason phrase of a status code with
/// `http::StatusCode::from_u16` and `canonical_reason`; the contract ties the
/// result to the named table.
#[verifier::external_body]
fn canonical_reason(code: u16) -> (r: Option<&'static str>)
    requires
        valid_status(code as int),
    ensures
        r is Some <==> http_canonical_reason(code as int) is Some,
        r matches Some(s) ==> http_canonical_reason(code as int) == Some(s@),
{
    match actix_web::http::StatusCode::from_u16(code) {
        Ok(status) => status.canonical_reason(),
        Err(_) => None,
    }
}

/// The text of a status code as `http::StatusCode`'s `Display` writes it:
/// the number, a space, and the reason phrase.
pub open spec fn status_display(code: int) -> Seq<char> {
    nat_decimal(code as nat) + " "@ + match http_canonical_reason(code) {
        Some(r) => r,
        None => "<unknown status code>"@,
    }
}

/// The text of a status code, such as `200 OK`.
pub fn status_text(code: u16) -> (s: String)
    requires
        valid_status(code as int),
    ensures
        s@ == status_display(code as int),
{
    let mut s = u64_decimal(code as u64);
    s.append(" ");
    match canonical_reason(code) {
        Some(r) => s.append(r),
        None => s.append("<unknown status code>"),
    }
    assert(s@ =~= status_display(code as int));
    s
}

/// Reads bytes as UTF-8 text with `String::from_utf8`, which succeeds
/// exactly on valid UTF-8 and then holds the decoded characters.
#[verifier::external_body]
pub(crate) fn string_from_utf8(bytes: Vec<u8>) -> (r: Option<String>)
    ensures
        r is Some <==> valid_utf8(bytes@),
        r matches Some(s) ==> s@ == decode_utf8(bytes@),
{
    match String::from_utf8(bytes) {
        Ok(s) => Some(s),
        Err(_) => None,
    }
}

/// A byte `HeaderValue::to_str` accepts: visible ASCII or a tab.
pub open spec fn is_visible_ascii(b: u8) -> bool {
    (32 <= b && b < 127) || b == 9
}

/// Whether every byte of a header value is visible ASCII or a tab, the
/// condition under which a header value reads as text.
pub open spec fn header_is_text(bytes: Seq<u8>) -> bool {
    forall|i: int| 0 <= i < bytes.len() ==> is_visible_ascii(#[trigger] bytes[i])
}

/// Whether every byte of a header value is visible ASCII or a tab.
pub fn is_header_text(bytes: &[u8]) -> (b: bool)
    ensures
        b == header_is_text(bytes@),
{
    let mut i: usize = 0;
    while i < bytes.len()
        invariant
            i <= bytes@.len(),
            forall|j: int| 0 <= j < i ==> is_visible_ascii(#[trigger] bytes@[j]),
        decreases bytes@.len() - i,
    {
        if !(bytes[i] >= 32 && bytes[i] < 127 || bytes[i] == 9) {
            return false;
        }
        i = i + 1;
    }
    true
}

/// The text of a header value, as `HeaderValue::to_str` gives it: `None`
/// when a byte is neither visible ASCII nor a tab.
pub fn header_text(bytes: &[u8]) -> (r: Option<String>)
    ensures
        r is Some <==> header_is_text(bytes@),
        r matches Some(s) ==> s@ == decode_utf8(bytes@) && encode_utf8(s@) == bytes@,
{
    let mut i: usize = 0;
    while i < bytes.len()
        invariant
            i <= bytes@.len(),
            forall|j: int| 0 <= j < i ==> is_visible_ascii(#[trigger] bytes@[j]),
        decreases bytes@.len() - i,
    {
        if !(bytes[i] >= 32 && bytes[i] < 127 || bytes[i] == 9) {
            return None;
        }
        i = i + 1;
    }
    proof {
        lemma_ascii_bytes_valid_utf8(bytes@);
        decode_utf8_encode_utf8(bytes@);
    }
    let mut v: Vec<u8> = Vec::new();
    let mut k: usize = 0;
    while k < bytes.len()
        invariant
            k <= bytes@.len(),
            v@ == bytes@.take(k as int),
        decreases bytes@.len() - k,
    {
        v.push(bytes[k]);
        assert(bytes@.take(k + 1) =~= bytes@.take(k as int).push(bytes@[k as int]));
        k = k + 1;
    }
    assert(bytes@.take(bytes@.len() as int) =~= bytes@);
    string_from_utf8(v)
}

/// Bytes below 128 form valid UTF-8.
pub proof fn lemma_ascii_bytes_valid_utf8(bytes: Seq<u8>)
    requires
        forall|i: int| 0 <= i < bytes.len() ==> #[trigger] bytes[i] < 128,
    ensures
        valid_utf8(bytes),
    decreases bytes.len(),
{
    reveal_with_fuel(valid_utf8, 2);
    if bytes.len() > 0 {
        assert(is_leading_byte_width_1(bytes[0]));
        let rest = pop_first_scalar(bytes);
        assert(rest =~= bytes.skip(1));
        assert forall|i: int| 0 <= i < rest.len() implies #[trigger] rest[i] < 128 by {
            assert(rest[i] == bytes[i + 1]);
        }
        lemma_ascii_bytes_valid_utf8(rest);
    }
}

/// Whether a byte is an ASCII decimal digit.
pub open spec fn is_digit(b: u8) -> bool {
    48 <= b <= 57
}

/// Why `i32::from_str` rejects a text, as `std::num::IntErrorKind` names it.
#[derive(Clone, Copy, Debug, PartialEq, Eq)]
pub enum IntErrorKind {
    Empty,
    InvalidDigit,
    PosOverflow,
    NegOverflow,
}

impl IntErrorKind {
    /// The text `ParseIntError`'s `Display` writes for the kind.
    pub open spec fn message(self) -> Seq<char> {
        match self {
            IntErrorKind::Empty => "cannot parse integer from empty string"@,
            IntErrorKind::InvalidDigit => "invalid digit found in string"@,
            IntErrorKind::PosOverflow => "number too large to fit in target type"@,
            IntErrorKind::NegOverflow => "number too small to fit in target type"@,
        }
    }

    /// The text `ParseIntError`'s `Display` writes for the kind.
    pub fn to_string(&self) -> (s: String)
        ensures
            s@ == self.message(),
    {
        let mut s = String::new();
        match self {
            IntErrorKind::Empty => s.append("cannot parse integer from empty string"),
            IntErrorKind::InvalidDigit => s.append("invalid digit found in string"),
            IntErrorKind::PosOverflow => s.append("number too large to fit in target type"),
            IntErrorKind::NegOverflow => s.append("number too small to fit in target type"),
        }
        assert(s@ =~= self.message());
        s
    }
}

/// The largest magnitude an `i32` of the given sign can have.
pub open spec fn i32_limit(negative: bool) -> int {
    if negative {
        0x8000_0000
    } else {
        0x7fff_ffff
    }
}

/// Reads the digits `d[i..]` left to right after the magnitude `acc` was
/// read from `d[..i]`: the first byte that is not a digit, or the first digit
/// that takes the magnitude past what the sign allows, ends the reading with
/// an error.
pub open spec fn scan_digits(d: Seq<u8>, negative: bool, i: int, acc: int) -> Result<
    int,
    IntErrorKind,
>
    decreases d.len() - i,
{
    if i >= d.len() || i < 0 {
        Ok(acc)
    } else if !is_digit(d[i]) {
        Err(IntErrorKind::InvalidDigit)
    } else if acc * 10 + (d[i] - 48) > i32_limit(negative) {
        Err(if negative { IntErrorKind::NegOverflow } else { IntErrorKind::PosOverflow })
    } else {
        scan_digits(d, negative, i + 1, acc * 10 + (d[i] - 48))
    }
}

/// What `i32::from_str` reads: an optional `+` or `-`, then one or more
/// decimal digits, denoting a value in the range of `i32`.
pub open spec fn i32_from_str(s: Seq<u8>) -> Result<i32, IntErrorKind> {
    if s.len() == 0 {
        Err(IntErrorKind::Empty)
    } else if (s[0] == 43u8 || s[0] == 45u8) && s.len() == 1 {
        Err(IntErrorKind::InvalidDigit)
    } else {
        let negative = s[0] == 45u8;
        let start: int = if s[0] == 43u8 || s[0] == 45u8 {
            1
        } else {
            0
        };
        match scan_digits(s, negative, start, 0) {
            Ok(m) => Ok((if negative {
                -m
            } else {
                m
            }) as i32),
            Err(e) => Err(e),
        }
    }
}

/// Reads a decimal `i32` as `str::parse::<i32>` does.
pub fn parse_i32(s: &[u8]) -> (r: Result<i32, IntErrorKind>)
    ensures
        r == i32_from_str(s@),
{
    if s.len() == 0 {
        return Err(IntErrorKind::Empty);
    }
    if (s[0] == 43u8 || s[0] == 45u8) && s.len() == 1 {
        return Err(IntErrorKind::InvalidDigit);
    }
    let negative = s[0] == 45u8;
    let start: usize = if s[0] == 43u8 || s[0] == 45u8 {
        1
    } else {
        0
    };
    let limit: i64 = if negative {
        0x8000_0000
    } else {
        0x7fff_ffff
    };
    let mut acc: i64 = 0;
    let mut i: usize = start;
    while i < s.len()
        invariant
            start <= i <= s@.len(),
            s@.len() > 0,
            !((s@[0] == 43u8 || s@[0] == 45u8) && s@.len() == 1),
            negative == (s@[0] == 45u8),
            start == (if s@[0] == 43u8 || s@[0] == 45u8 { 1usize } else { 0usize }),
            0 <= acc <= limit,
            limit == i32_limit(negative),
            scan_digits(s@, negative, i as int, acc as int) == scan_digits(
                s@,
                negative,
                start as int,
                0,
            ),
        decreases s@.len() - i,
    {
        let b = s[i];
        if !(48 <= b && b <= 57) {
            return Err(IntErrorKind::InvalidDigit);
        }
        let next = acc * 10 + (b - 48) as i64;
        if next > limit {
            return Err(
                if negative {
                    IntErrorKind::NegOverflow
                } else {
                    IntErrorKind::PosOverflow
                },
            );
        }
        acc = next;
        i = i + 1;
    }
    if negative {
        Ok((-acc) as i32)
    } else {
        Ok(acc as i32)
    }
}

/// Why the `Depth` header of a request could not be read.
#[derive(Clone, Copy, Debug, PartialEq, Eq)]
pub enum DepthError {
    /// The request has no `Depth` header.
    Missing,
    /// The header value holds a byte that is neither visible ASCII nor a tab.
    NotText,
    /// The header text is not a decimal `i32`.
    NotNumber(IntErrorKind),
}

/// The depth a `Depth` header asks for, or why it could not be read.
pub open spec fn depth_of(header: Option<Seq<u8>>) -> Result<i32, DepthError> {
    match header {
        None => Err(DepthError::Missing),
        Some(bytes) => if !header_is_text(bytes) {
            Err(DepthError::NotText)
        } else {
            match i32_from_str(bytes) {
                Ok(d) => Ok(d),
                Err(k) => Err(DepthError::NotNumber(k)),
            }
        },
    }
}

/// The view of an optional header value.
pub open spec fn opt_bytes(header: Option<&[u8]>) -> Option<Seq<u8>> {
    match header {
        Some(b) => Some(b@),
        None => None,
    }
}

/// Reads the `Depth` header of a request: its text, parsed as an `i32`.
pub fn read_depth(header: Option<&[u8]>) -> (r: Result<i32, DepthError>)
    ensures
        r == depth_of(opt_bytes(header)),
{
    match header {
        None => Err(DepthError::Missing),
        Some(bytes) => match header_text(bytes) {
            None => Err(DepthError::NotText),
            Some(_) => match parse_i32(bytes) {
                Ok(d) => Ok(d),
                Err(k) => Err(DepthError::NotNumber(k)),
            },
        },
    }
}

} // verus!
