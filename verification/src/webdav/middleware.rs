//! Basic authentication in front of the CalDAV endpoints: reading the
//! credentials of a request and deciding its fate.

use vstd::prelude::*;
use vstd::slice::{slice_subrange, slice_to_vec};
use vstd::string::*;
use vstd::utf8::*;

use base64::prelude::BASE64_STANDARD;
use base64::Engine;

use crate::http::{header_is_text, opt_bytes, string_from_utf8, INTERNAL_SERVER_ERROR, UNAUTHORIZED};

verus! {

broadcast use vstd::seq::group_seq_axioms;

/// What `BASE64_STANDARD.decode` yields for `input`: the decoded bytes, or
/// `None` when the input is not padded standard base64.
pub uninterp spec fn base64_standard_decode(input: Seq<u8>) -> Option<Seq<u8>>;

/// Decodes standard, padded base64 with `base64`'s `BASE64_STANDARD`
/// engine; the contract ties the result to the named decoding.
#[verifier::external_body]
pub(crate) fn decode_base64(input: &[u8]) -> (r: Option<Vec<u8>>)
    ensures
        r is Some <==> base64_standard_decode(input@) is Some,
        r matches Some(v) ==> base64_standard_decode(input@) == Some(v@),
{
    match BASE64_STANDARD.decode(input) {
        Ok(v) => Some(v),
        Err(_) => None,
    }
}

/// The bytes of `Basic `.
pub open spec fn basic_prefix() -> Seq<u8> {
    seq![66u8, 97u8, 115u8, 105u8, 99u8, 32u8]
}

/// The text of the `Authorization` header, or the empty text when it does
/// not read as text.
pub open spec fn authorization_text(header: Seq<u8>) -> Seq<u8> {
    if header_is_text(header) {
        header
    } else {
        Seq::empty()
    }
}

/// The text without a leading `Basic `.
pub open spec fn strip_basic(t: Seq<u8>) -> Seq<u8> {
    if t.len() >= 6 && t.take(6) == basic_prefix() {
        t.skip(6)
    } else {
        t
    }
}

/// Whether `i` is the first position of the byte `b` in `s`.
pub open spec fn is_first_index(s: Seq<u8>, b: u8, i: int) -> bool {
    &&& 0 <= i < s.len()
    &&& s[i] == b
    &&& forall|j: int| 0 <= j < i ==> s[j] != b
}

/// The first position of the byte `b` in `s`, if it occurs.
pub open spec fn first_index(s: Seq<u8>, b: u8) -> Option<int> {
    if exists|i: int| is_first_index(s, b, i) {
        Some(choose|i: int| is_first_index(s, b, i))
    } else {
        None
    }
}

/// The end of the first `:`-separated piece of `s`.
pub open spec fn piece_end(s: Seq<u8>) -> int {
    match first_index(s, 58u8) {
        Some(i) => i,
        None => s.len() as int,
    }
}

/// The user and password of decoded credentials: the text must be UTF-8
/// and hold a `:`; the user is what precedes the first `:`, the password
/// what lies between it and the next `:` (or the end).
pub open spec fn credentials_of(d: Seq<u8>) -> Option<(Seq<char>, Seq<char>)> {
    if !valid_utf8(d) {
        None
    } else {
        match first_index(d, 58u8) {
            None => None,
            Some(i) => {
                let rest = d.skip(i + 1);
                Some((decode_utf8(d.take(i)), decode_utf8(rest.take(piece_end(rest)))))
            },
        }
    }
}

/// The credentials of a request's `Authorization` header: its text, without
/// a leading `Basic `, decoded as base64, split at `:`.
pub open spec fn basic_credentials_of(header: Option<Seq<u8>>) -> Option<(Seq<char>, Seq<char>)> {
    match header {
        None => None,
        Some(h) => match base64_standard_decode(strip_basic(authorization_text(h))) {
            None => None,
            Some(d) => credentials_of(d),
        },
    }
}

/// The view of optional credentials.
pub open spec fn opt_credentials(c: Option<(String, String)>) -> Option<(Seq<char>, Seq<char>)> {
    match c {
        Some((u, p)) => Some((u@, p@)),
        None => None,
    }
}

proof fn lemma_first_index_unique(s: Seq<u8>, b: u8, i: int)
    requires
        is_first_index(s, b, i),
    ensures
        first_index(s, b) == Some(i),
{
    let k = choose|k: int| is_first_index(s, b, k);
    assert(is_first_index(s, b, k));
    if k < i {
        assert(s[k] != b);
    }
    if i < k {
        assert(s[i] != b);
    }
}

/// Finds the first position of `b` in `s`.
fn find_byte(s: &[u8], b: u8) -> (r: Option<usize>)
    ensures
        r is None ==> first_index(s@, b) is None,
        r matches Some(i) ==> first_index(s@, b) == Some(i as int),
{
    let mut i: usize = 0;
    while i < s.len()
        invariant
            i <= s@.len(),
            forall|j: int| 0 <= j < i ==> s@[j] != b,
        decreases s@.len() - i,
    {
        if s[i] == b {
            proof {
                lemma_first_index_unique(s@, b, i as int);
            }
            return Some(i);
        }
        i = i + 1;
    }
    assert(!exists|k: int| is_first_index(s@, b, k));
    None
}

/// Reads a piece of valid UTF-8 that ends before a `:` or at the end.
fn utf8_piece(d: &[u8], from: usize, to: usize) -> (r: String)
    requires
        from <= to <= d@.len(),
        valid_utf8(d@),
        from == 0 || (from < d@.len() + 1 && d@[from - 1] == 58u8),
        to == d@.len() || d@[to as int] == 58u8,
    ensures
        r@ == decode_utf8(d@.subrange(from as int, to as int)),
{
    let ghost b = d@;
    proof {
        if from > 0 {
            assert(!is_continuation_byte(b[from - 1]));
            if from < b.len() {
                is_char_boundary_iff_not_is_continuation_byte(b, from as int);
                assert(!is_continuation_byte(b[from as int])) by {
                    assert(b[from - 1] == 58u8);
                    is_char_boundary_iff_not_is_continuation_byte(b, from - 1);
                    if is_continuation_byte(b[from as int]) {
                        // a continuation byte cannot follow an ASCII byte
                        is_char_boundary_iff_is_leading_byte(b, from - 1);
                        assert(is_char_boundary(b, from - 1));
                        lemma_ascii_then_boundary(b, from - 1);
                    }
                }
            } else {
                is_char_boundary_start_end_of_seq(b);
            }
        } else {
            is_char_boundary_start_end_of_seq(b);
        }
        if to < b.len() {
            is_char_boundary_iff_not_is_continuation_byte(b, to as int);
        } else {
            is_char_boundary_start_end_of_seq(b);
        }
        let tail = b.subrange(from as int, b.len() as int);
        valid_utf8_split(b, from as int);
        assert(tail.subrange(0, to - from) =~= b.subrange(from as int, to as int));
        if to < b.len() {
            assert(tail[to - from] == 58u8);
            is_char_boundary_iff_not_is_continuation_byte(tail, to - from);
        } else {
            is_char_boundary_start_end_of_seq(tail);
        }
        valid_utf8_split(tail, to - from);
    }
    let piece = slice_to_vec(slice_subrange(d, from, to));
    match string_from_utf8(piece) {
        Some(s) => s,
        None => String::new(),
    }
}

/// A byte below 128 at a character boundary is followed by a character
/// boundary.
proof fn lemma_ascii_then_boundary(b: Seq<u8>, i: int)
    requires
        valid_utf8(b),
        0 <= i < b.len(),
        is_char_boundary(b, i),
        b[i] < 128,
    ensures
        is_char_boundary(b, i + 1),
    decreases b.len(),
{
    reveal_with_fuel(is_char_boundary, 2);
    if i > 0 {
        lemma_ascii_then_boundary(pop_first_scalar(b), i - length_of_first_scalar(b));
    }
}

/// Reads the credentials of a request's `Authorization` header, as the
/// authentication middleware does.
pub fn basic_credentials(header: Option<&[u8]>) -> (r: Option<(String, String)>)
    ensures
        opt_credentials(r) == basic_credentials_of(opt_bytes(header)),
{
    let h = match header {
        None => return None,
        Some(h) => h,
    };
    let empty: [u8; 0] = [];
    let text: &[u8] = if crate::http::is_header_text(h) {
        h
    } else {
        &empty
    };
    assert(text@ =~= authorization_text(h@));
    let stripped = if text.len() >= 6 && text[0] == 66u8 && text[1] == 97u8 && text[2] == 115u8
        && text[3] == 105u8 && text[4] == 99u8 && text[5] == 32u8 {
        assert(text@.take(6) =~= basic_prefix());
        slice_subrange(text, 6, text.len())
    } else {
        proof {
            if text@.len() >= 6 && text@.take(6) == basic_prefix() {
                assert(text@.take(6)[0] == text@[0]);
                assert(text@.take(6)[1] == text@[1]);
                assert(text@.take(6)[2] == text@[2]);
                assert(text@.take(6)[3] == text@[3]);
                assert(text@.take(6)[4] == text@[4]);
                assert(text@.take(6)[5] == text@[5]);
            }
        }
        text
    };
    assert(stripped@ =~= strip_basic(text@));
    let decoded = match decode_base64(stripped) {
        None => return None,
        Some(d) => d,
    };
    let check = decoded.clone();
    assert(check@ =~= decoded@);
    if string_from_utf8(check).is_none() {
        return None;
    }
    let d = decoded.as_slice();
    let colon = match find_byte(d, 58u8) {
        None => return None,
        Some(i) => i,
    };
    let rest = slice_subrange(d, colon + 1, d.len());
    let end = match find_byte(rest, 58u8) {
        None => rest.len(),
        Some(j) => j,
    };
    proof {
        assert(is_first_index(d@, 58u8, colon as int));
        if end < rest@.len() {
            assert(is_first_index(rest@, 58u8, end as int));
            assert(d@[colon + 1 + end] == rest@[end as int]);
        }
    }
    let user = utf8_piece(d, 0, colon);
    let password = utf8_piece(d, colon + 1, colon + 1 + end);
    proof {
        assert(d@.subrange(0, colon as int) =~= d@.take(colon as int));
        assert(rest@ =~= d@.skip(colon + 1));
        assert(d@.subrange(colon + 1, colon + 1 + end) =~= rest@.take(end as int));
    }
    Some((user, password))
}

/// What happens to a request once its credentials were checked.
#[derive(Clone, Copy, Debug, PartialEq, Eq)]
pub enum AuthOutcome {
    /// The credentials are valid: the request goes on to the endpoint.
    Forward,
    /// The credentials are not valid: 401 with a `WWW-Authenticate` challenge.
    Unauthorized,
    /// Checking the credentials failed: 500.
    AuthenticationError,
}

/// The fate of a request given the result of checking its credentials.
pub open spec fn spec_credentials_outcome(valid: Result<bool, Seq<char>>) -> AuthOutcome {
    match valid {
        Ok(true) => AuthOutcome::Forward,
        Ok(false) => AuthOutcome::Unauthorized,
        Err(_) => AuthOutcome::AuthenticationError,
    }
}

/// The view of a checking result.
pub open spec fn checked_view(valid: Result<bool, String>) -> Result<bool, Seq<char>> {
    match valid {
        Ok(b) => Ok(b),
        Err(m) => Err(m@),
    }
}

/// The fate of a request given the result of checking its credentials.
pub fn credentials_outcome(valid: &Result<bool, String>) -> (o: AuthOutcome)
    ensures
        o == spec_credentials_outcome(checked_view(*valid)),
{
    match valid {
        Ok(true) => AuthOutcome::Forward,
        Ok(false) => AuthOutcome::Unauthorized,
        Err(_) => AuthOutcome::AuthenticationError,
    }
}

impl AuthOutcome {
    /// The status code of the answer to a request that does not go on.
    pub open spec fn spec_status(self) -> u16 {
        match self {
            AuthOutcome::AuthenticationError => INTERNAL_SERVER_ERROR,
            _ => UNAUTHORIZED,
        }
    }

    /// The status code of the answer to a request that does not go on.
    pub fn status(&self) -> (c: u16)
        ensures
            c == self.spec_status(),
    {
        match self {
            AuthOutcome::AuthenticationError => INTERNAL_SERVER_ERROR,
            _ => UNAUTHORIZED,
        }
    }
}

/// The factory of the authentication middleware.
#[derive(Default)]
pub struct CalDavAuth {}

/// The authentication middleware around a service.
pub struct CalDavAuthMiddleware<S> {
    pub service: S,
}

impl CalDavAuth {
    /// Wraps a service in the authentication middleware.
    pub fn new_transform<S>(&self, service: S) -> (m: CalDavAuthMiddleware<S>)
        ensures
            m.service == service,
    {
        CalDavAuthMiddleware { service }
    }
}

impl<S> CalDavAuthMiddleware<S> {
    /// The credentials a request presents, or `None` when it must be
    /// refused with 401 at once.
    pub fn credentials(&self, authorization: Option<&[u8]>) -> (r: Option<(String, String)>)
        ensures
            opt_credentials(r) == basic_credentials_of(opt_bytes(authorization)),
    {
        basic_credentials(authorization)
    }
}

} // verus!
