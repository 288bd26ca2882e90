//! Instants in UTC, held as whole seconds since the Unix epoch, and their
//! textual forms as chrono renders them.

use vstd::prelude::*;
use vstd::utf8::*;

use chrono::{DateTime, Utc};
use std::str::FromStr;

verus! {

/// The first second that chrono's `DateTime<Utc>` can hold
/// (January 1 of year -262143, 00:00:00).
pub const MIN_TIMESTAMP: i64 = -8334601228800i64;

/// The last second that chrono's `DateTime<Utc>` can hold
/// (December 31 of year 262142, 23:59:59).
pub const MAX_TIMESTAMP: i64 = 8210266876799i64;

/// The first second of year 0, the earliest instant RFC 2822 can express.
pub const RFC2822_MIN_TIMESTAMP: i64 = -62167219200i64;

/// The last second of year 9999, the latest instant RFC 2822 can express.
pub const RFC2822_MAX_TIMESTAMP: i64 = 253402300799i64;

/// An instant in UTC with a resolution of one second.
#[derive(Clone, Copy, Debug, PartialEq, Eq)]
pub struct UtcTime {
    secs: i64,
}

impl View for UtcTime {
    type V = int;

    closed spec fn view(&self) -> int {
        self.secs as int
    }
}

/// Whether a count of seconds since the epoch is an instant chrono can hold.
pub open spec fn representable(secs: int) -> bool {
    MIN_TIMESTAMP <= secs <= MAX_TIMESTAMP
}

/// Whether an instant lies in the years 0 through 9999.
pub open spec fn in_rfc2822_range(secs: int) -> bool {
    RFC2822_MIN_TIMESTAMP <= secs <= RFC2822_MAX_TIMESTAMP
}

impl UtcTime {
    #[verifier::type_invariant]
    spec fn inv(self) -> bool {
        representable(self.secs as int)
    }

    /// The instant `secs` seconds after 1970-01-01T00:00:00Z, or `None` when
    /// it lies outside the range chrono supports.
    pub fn from_timestamp_secs(secs: i64) -> (r: Option<UtcTime>)
        ensures
            r is Some <==> representable(secs as int),
            r matches Some(t) ==> t@ == secs as int,
    {
        if MIN_TIMESTAMP <= secs && secs <= MAX_TIMESTAMP {
            Some(UtcTime { secs })
        } else {
            None
        }
    }

    /// Seconds since the epoch.
    pub fn timestamp(&self) -> (s: i64)
        ensures
            s as int == self@,
            representable(s as int),
    {
        proof {
            use_type_invariant(self);
        }
        self.secs
    }
}

/// A chrono format pattern built only from literal ASCII characters and the
/// numeric specifiers `%Y %m %d %H %M %S`.
pub open spec fn numeric_pattern(p: Seq<char>) -> bool {
    &&& is_ascii_chars(p)
    &&& forall|i: int|
        0 <= i < p.len() && #[trigger] p[i] == '%' ==> i + 1 < p.len() && (p[i + 1] == 'Y'
            || p[i + 1] == 'm' || p[i + 1] == 'd' || p[i + 1] == 'H' || p[i + 1] == 'M' || p[i
            + 1] == 'S')
}

/// The text chrono writes for `DateTime<Utc>` at `secs` with the pattern `pattern`.
pub uninterp spec fn chrono_format_utc(secs: int, pattern: Seq<char>) -> Seq<char>;

/// The text of `DateTime<Utc>::to_rfc2822` at `secs`.
pub uninterp spec fn chrono_rfc2822(secs: int) -> Seq<char>;

/// The whole seconds of the instant that `DateTime<Utc>::from_str` reads from
/// `s`, or `None` when chrono rejects the text.
pub uninterp spec fn chrono_parse_utc(s: Seq<char>) -> Option<int>;

/// Formats an instant with chrono's `DateTime::<Utc>::format` and
/// `to_string`. The contract says the result is the named text, and that a
/// pattern of numeric specifiers and ASCII literals yields ASCII text (each
/// of these specifiers writes digits, and `%Y` a sign for years past 9999).
#[verifier::external_body]
pub(crate) fn format_utc(t: UtcTime, pattern: &str) -> (s: String)
    requires
        numeric_pattern(pattern@),
    ensures
        s@ == chrono_format_utc(t@, pattern@),
        is_ascii_chars(s@),
{
    DateTime::<Utc>::from_timestamp_secs(t.secs).unwrap().format(pattern).to_string()
}

/// Renders an instant with chrono's `DateTime::<Utc>::to_rfc2822`, which
/// panics outside the years 0 through 9999; the contract claims only that the
/// result is the named text.
#[verifier::external_body]
pub(crate) fn rfc2822(t: UtcTime) -> (s: String)
    requires
        in_rfc2822_range(t@),
    ensures
        s@ == chrono_rfc2822(t@),
{
    DateTime::<Utc>::from_timestamp_secs(t.secs).unwrap().to_rfc2822()
}

/// Reads an instant with chrono's `DateTime::<Utc>::from_str` and keeps its
/// whole seconds. The contract ties the result to the named reading of `s`.
#[verifier::external_body]
pub(crate) fn parse_utc(s: &str) -> (r: Option<UtcTime>)
    ensures
        r is Some <==> chrono_parse_utc(s@) is Some,
        r matches Some(t) ==> chrono_parse_utc(s@) == Some(t@),
{
    match DateTime::<Utc>::from_str(s) {
        Ok(d) => Some(UtcTime { secs: d.timestamp() }),
        Err(_) => None,
    }
}

/// The current instant, from chrono's `Utc::now`. Nothing is claimed of it
/// beyond what every `UtcTime` satisfies.
#[verifier::external_body]
pub(crate) fn now() -> (t: UtcTime) {
    UtcTime { secs: Utc::now().timestamp() }
}

} // verus!
