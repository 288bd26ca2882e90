//! iCalendar (RFC 5545) content lines and the calendar components that are
//! serialized from them.

use vstd::prelude::*;
use vstd::string::*;
use vstd::utf8::*;

use crate::icalendar::parameter::IcalParam;
use crate::text::lemma_encode_utf8_concat;
use crate::time::{chrono_format_utc, format_utc, numeric_pattern, UtcTime};

pub mod alarm;
pub mod event;
pub mod parameter;
pub mod todo;

verus! {

broadcast use {vstd::seq::group_seq_axioms, vstd::string::group_string_axioms};

/// The line break plus the single space that starts a continuation line.
pub open spec fn fold_break() -> Seq<u8> {
    seq![13u8, 10u8, 32u8]
}

/// The number of bytes a continuation line carries after its leading space,
/// so that it too stays within `width` octets; at least one.
pub open spec fn continuation_width(width: nat) -> nat {
    if width >= 2 {
        (width - 1) as nat
    } else {
        width
    }
}

/// Folding with a first piece of up to `first` bytes and later pieces of up
/// to `next` bytes, joined by CRLF and a space.
pub open spec fn fold_pieces(b: Seq<u8>, first: nat, next: nat) -> Seq<u8>
    decreases b.len(),
{
    if first == 0 || b.len() <= first {
        b
    } else {
        b.take(first as int) + fold_break() + fold_pieces(b.skip(first as int), next, next)
    }
}

/// Folding of a content line (RFC 5545 section 3.1): the first line holds
/// `width` bytes, every continuation line a space and
/// [`continuation_width`] bytes, so that no line is longer than `width`
/// octets; the last piece may be shorter.
pub open spec fn fold_bytes(b: Seq<u8>, width: nat) -> Seq<u8> {
    fold_pieces(b, width, continuation_width(width))
}

/// Whether folding at `width` cuts the bytes just before position `i`:
/// at `width`, then every [`continuation_width`] bytes.
pub open spec fn is_fold_cut(i: int, width: nat) -> bool {
    &&& width > 0
    &&& i >= width
    &&& (i - width) % (continuation_width(width) as int) == 0
}

/// Every cut point of the folding falls on the first byte of a character.
/// A cut inside a multi-byte character would split the string inside a
/// character, which slicing a `str` refuses.
pub open spec fn cuts_on_char_boundaries(b: Seq<u8>, width: nat) -> bool {
    forall|i: int| 0 < i < b.len() && is_fold_cut(i, width) ==> !is_continuation_byte(#[trigger] b[i])
}

/// The text of a folded line.
pub open spec fn folded(s: Seq<char>, width: nat) -> Seq<char> {
    decode_utf8(fold_bytes(encode_utf8(s), width))
}

/// Splits `s` into a first piece of `width` bytes and continuation pieces of
/// `width - 1` bytes joined by `"\r\n "`, so that every line is at most
/// `width` octets: the line folding of RFC 5545 section 3.1.
pub fn wrap_icalendar_line(s: &str, width: usize) -> (r: String)
    requires
        width > 0,
        cuts_on_char_boundaries(s.spec_bytes(), width as nat),
    ensures
        encode_utf8(r@) == fold_bytes(s.spec_bytes(), width as nat),
        r@ == folded(s@, width as nat),
{
    broadcast use {encode_utf8_valid_utf8, encode_utf8_decode_utf8, is_ascii_chars_encode_utf8};

    let ghost b = s.spec_bytes();
    let ghost w = width as nat;
    let next: usize = if width >= 2 { width - 1 } else { width };
    let ghost n = next as nat;
    let total = s.as_bytes().len();
    let mut result = String::new();
    let mut rest: &str = s;
    let mut first = true;
    let ghost mut start: int = 0;
    proof {
        reveal_strlit("\r\n ");
        assert(b.skip(0) =~= b);
        assert(encode_utf8(result@) =~= Seq::<u8>::empty());
    }
    while rest.len() > 0
        invariant
            w == width as nat,
            w > 0,
            n == next as nat,
            n == continuation_width(w),
            n > 0,
            n <= w,
            b == s.spec_bytes(),
            valid_utf8(b),
            b.len() == total,
            valid_utf8(rest.spec_bytes()),
            cuts_on_char_boundaries(b, w),
            0 <= start <= b.len(),
            start == 0 || start == b.len() || is_fold_cut(start, w),
            rest.spec_bytes() == b.skip(start),
            first <==> start == 0,
            "\r\n "@ == seq!['\r', '\n', ' '],
            encode_utf8(result@) + (if rest.spec_bytes().len() == 0 {
                Seq::<u8>::empty()
            } else if first {
                fold_pieces(rest.spec_bytes(), w, n)
            } else {
                fold_break() + fold_pieces(rest.spec_bytes(), n, n)
            }) == fold_bytes(b, w),
        decreases b.len() - start,
    {
        let ghost rb = rest.spec_bytes();
        let ghost old_result = result@;
        let limit = if first { width } else { next };
        let take = if limit < rest.len() { limit } else { rest.len() };
        proof {
            if take < rb.len() {
                assert(take == limit);
                assert(rb[take as int] == b[start + take]);
                if first {
                    assert(start + take - w == 0);
                    assert(0int % (n as int) == 0);
                    assert(is_fold_cut(start + take, w));
                } else {
                    vstd::arithmetic::div_mod::lemma_mod_add_multiples_vanish(start - w, n as int);
                    assert(start + take - w == n + (start - w));
                    assert(is_fold_cut(start + take, w));
                }
                is_char_boundary_iff_not_is_continuation_byte(rb, take as int);
            } else {
                is_char_boundary_start_end_of_seq(rb);
            }
        }
        let (chunk, tail) = rest.split_at(take);
        proof {
            let crlf = seq!['\r', '\n', ' '];
            assert(is_ascii_chars(crlf));
            is_ascii_chars_encode_utf8(crlf);
            assert(encode_utf8(crlf).len() == 3);
            assert(encode_utf8(crlf)[0] == crlf[0] as u8);
            assert(encode_utf8(crlf)[1] == crlf[1] as u8);
            assert(encode_utf8(crlf)[2] == crlf[2] as u8);
            assert(encode_utf8(crlf) =~= fold_break());
        }
        if !first {
            result.append("\r\n ");
        }
        result.append(chunk);
        proof {
            if first {
                lemma_encode_utf8_concat(old_result, chunk@);
            } else {
                lemma_encode_utf8_concat(old_result, "\r\n "@);
                lemma_encode_utf8_concat(old_result + "\r\n "@, chunk@);
            }
            assert(chunk.spec_bytes() =~= rb.take(take as int));
            assert(tail.spec_bytes() =~= rb.skip(take as int));
            valid_utf8_split(rb, take as int);
            assert(rb.subrange(take as int, rb.len() as int) =~= rb.skip(take as int));
            assert(rb.skip(take as int) =~= b.skip(start + take));
            if take >= rb.len() {
                assert(tail.spec_bytes().len() == 0);
                assert(rb.take(take as int) =~= rb);
            }
            start = start + take;
        }
        rest = tail;
        first = false;
    }
    proof {
        decode_utf8_encode_utf8(encode_utf8(result@));
    }
    result
}

/// No cut point of a fold lies strictly between a cut point `i` and the
/// next one, `i + n`.
proof fn lemma_no_cut_between(i: int, j: int, w: int, n: int)
    requires
        n > 0,
        w > 0,
        i >= w,
        (i - w) % n == 0,
        i < j < i + n,
    ensures
        (j - w) % n != 0,
{
    let x = i - w;
    let y = j - w;
    assert(y % n != 0) by (nonlinear_arith)
        requires n > 0, x % n == 0, x < y, y < x + n, x >= 0;
}

/// Whether folding `s` at `width` cuts it only between characters, so that
/// [`wrap_icalendar_line`] can fold it.
pub fn folds_on_char_boundaries(s: &str, width: usize) -> (b: bool)
    requires
        width > 0,
    ensures
        b == cuts_on_char_boundaries(s.spec_bytes(), width as nat),
{
    let bytes = s.as_bytes();
    let ghost bs = bytes@;
    let ghost w = width as int;
    let next: usize = if width >= 2 { width - 1 } else { width };
    let ghost n = next as int;
    let mut i = width;
    proof {
        assert forall|j: int| 0 < j < i && j < bs.len() && is_fold_cut(j, w as nat) implies !is_continuation_byte(
            #[trigger] bs[j],
        ) by {}
        assert((w - w) % n == 0);
    }
    while i < bytes.len()
        invariant
            bs == bytes@,
            bs == s.spec_bytes(),
            w == width as int,
            w > 0,
            n == next as int,
            n == continuation_width(w as nat),
            n > 0,
            i >= w,
            (i - w) % n == 0,
            forall|j: int| 0 < j < i && j < bs.len() && is_fold_cut(j, w as nat) ==> !is_continuation_byte(#[trigger] bs[j]),
        decreases bs.len() + n - i,
    {
        if 0x80u8 <= bytes[i] && bytes[i] <= 0xbfu8 {
            assert(is_fold_cut(i as int, w as nat));
            return false;
        }
        assert forall|j: int| 0 < j < i + n && j < bs.len() && is_fold_cut(j, w as nat) implies !is_continuation_byte(
            #[trigger] bs[j],
        ) by {
            if i < j {
                lemma_no_cut_between(i as int, j, w, n);
            }
        }
        if i > usize::MAX - next {
            return true;
        }
        proof {
            vstd::arithmetic::div_mod::lemma_mod_add_multiples_vanish(i - w, n);
            assert(i + n - w == n + (i - w));
        }
        i = i + next;
    }
    true
}

/// Whether a byte ends a line: carriage return or line feed.
pub open spec fn is_line_break(c: u8) -> bool {
    c == 13u8 || c == 10u8
}

/// Whether the `w + 1` bytes from position `i` hold a line break.
pub open spec fn window_breaks(b: Seq<u8>, i: int, w: nat) -> bool {
    exists|k: int| i <= k <= i + w && #[trigger] is_line_break(b[k])
}

/// Whether every line of `b` is at most `w` bytes long: no `w + 1`
/// consecutive bytes go without a line break.
pub open spec fn lines_at_most(b: Seq<u8>, w: nat) -> bool {
    forall|i: int| 0 <= i && i + w < b.len() ==> #[trigger] window_breaks(b, i, w)
}

/// Whether a byte sequence holds no line break.
pub open spec fn no_line_break(b: Seq<u8>) -> bool {
    forall|i: int| 0 <= i < b.len() ==> !is_line_break(#[trigger] b[i])
}

/// Folding with pieces of at most `first`, then `next` bytes keeps every
/// line within `w` bytes when the first piece fits and a continuation piece
/// fits after its leading space.
proof fn lemma_fold_pieces_lines(x: Seq<u8>, first: nat, next: nat, w: nat)
    requires
        no_line_break(x),
        1 <= first <= w,
        1 <= next,
        next + 1 <= w,
    ensures
        lines_at_most(fold_pieces(x, first, next), w),
    decreases x.len(),
{
    let f = fold_pieces(x, first, next);
    if x.len() <= first {
        assert(f == x);
    } else {
        let head = x.take(first as int);
        let y = x.skip(first as int);
        let r = fold_pieces(y, next, next);
        assert(no_line_break(y)) by {
            assert forall|i: int| 0 <= i < y.len() implies !is_line_break(#[trigger] y[i]) by {
                assert(y[i] == x[i + first]);
            }
        }
        lemma_fold_pieces_lines(y, next, next, w);
        assert(f == head + fold_break() + r);
        let h = first as int;
        assert(f[h] == 13u8);
        assert(f[h + 1] == 10u8);
        if y.len() > next {
            assert(r[next as int] == 13u8);
        } else {
            assert(r == y);
        }
        assert forall|i: int| 0 <= i && i + w < f.len() implies #[trigger] window_breaks(f, i, w) by {
            if i <= h {
                assert(is_line_break(f[h]));
            } else if i == h + 1 {
                assert(is_line_break(f[i]));
            } else if i == h + 2 {
                assert(r.len() > next);
                assert(f[h + 3 + next] == r[next as int]);
                assert(is_line_break(f[h + 3 + next]));
            } else {
                let j = i - (h + 3);
                assert(window_breaks(r, j, w));
                let k = choose|k: int| j <= k <= j + w && #[trigger] is_line_break(r[k]);
                assert(f[k + h + 3] == r[k]);
                assert(is_line_break(f[k + h + 3]));
            }
        }
    }
}

/// Every line of a folded line is at most `width` bytes long, for a width
/// of two or more and a line without line breaks (RFC 5545 section 3.1).
pub proof fn lemma_fold_lines_at_most(b: Seq<u8>, width: nat)
    requires
        no_line_break(b),
        width >= 2,
    ensures
        lines_at_most(fold_bytes(b, width), width),
{
    lemma_fold_pieces_lines(b, width, continuation_width(width), width);
}

/// Unfolding (RFC 5545 section 3.1): every CRLF followed by a space is
/// removed.
pub open spec fn unfold_bytes(b: Seq<u8>) -> Seq<u8>
    decreases b.len(),
{
    if b.len() == 0 {
        b
    } else if b.len() >= 3 && b[0] == 13u8 && b[1] == 10u8 && b[2] == 32u8 {
        unfold_bytes(b.skip(3))
    } else {
        seq![b[0]] + unfold_bytes(b.skip(1))
    }
}

/// Whether a byte sequence holds no carriage return.
pub open spec fn no_carriage_return(b: Seq<u8>) -> bool {
    forall|i: int| 0 <= i < b.len() ==> b[i] != 13u8
}

proof fn lemma_unfold_prefix(x: Seq<u8>, y: Seq<u8>)
    requires
        no_carriage_return(x),
    ensures
        unfold_bytes(x + y) == x + unfold_bytes(y),
    decreases x.len(),
{
    if x.len() == 0 {
        assert(x + y =~= y);
    } else {
        assert((x + y)[0] == x[0]);
        assert((x + y).skip(1) =~= x.skip(1) + y);
        assert(no_carriage_return(x.skip(1))) by {
            assert forall|i: int| 0 <= i < x.skip(1).len() implies x.skip(1)[i] != 13u8 by {
                assert(x.skip(1)[i] == x[i + 1]);
            }
        }
        lemma_unfold_prefix(x.skip(1), y);
        assert(seq![x[0]] + (x.skip(1) + unfold_bytes(y)) =~= x + unfold_bytes(y));
    }
}

/// Unfolding pieces folded at any widths gives the bytes back, when they
/// hold no carriage return.
proof fn lemma_unfold_pieces(b: Seq<u8>, first: nat, next: nat)
    requires
        no_carriage_return(b),
    ensures
        unfold_bytes(fold_pieces(b, first, next)) == b,
    decreases b.len(),
{
    if first == 0 || b.len() <= first {
        lemma_unfold_prefix(b, Seq::empty());
        assert(b + Seq::<u8>::empty() =~= b);
        assert(unfold_bytes(Seq::<u8>::empty()) =~= Seq::<u8>::empty());
    } else {
        let head = b.take(first as int);
        let tail = b.skip(first as int);
        assert(no_carriage_return(head)) by {
            assert forall|i: int| 0 <= i < head.len() implies head[i] != 13u8 by {
                assert(head[i] == b[i]);
            }
        }
        assert(no_carriage_return(tail)) by {
            assert forall|i: int| 0 <= i < tail.len() implies tail[i] != 13u8 by {
                assert(tail[i] == b[i + first]);
            }
        }
        lemma_unfold_pieces(tail, next, next);
        let rest = fold_break() + fold_pieces(tail, next, next);
        assert(fold_pieces(b, first, next) =~= head + rest);
        lemma_unfold_prefix(head, rest);
        assert(rest.skip(3) =~= fold_pieces(tail, next, next));
        assert(head + tail =~= b);
    }
}

/// Unfolding a folded line gives the line back, when the line holds no
/// carriage return (content lines never do).
pub proof fn lemma_unfold_folded(b: Seq<u8>, width: nat)
    requires
        no_carriage_return(b),
    ensures
        unfold_bytes(fold_bytes(b, width)) == b,
{
    lemma_unfold_pieces(b, width, continuation_width(width));
}

/// The width, in bytes, at which content lines are folded.
pub const LINE_WIDTH: usize = 75;

/// A content line as written: folded at [`LINE_WIDTH`] and ended by CRLF.
pub open spec fn content_line(line: Seq<char>) -> Seq<char> {
    folded(line, LINE_WIDTH as nat) + "\r\n"@
}

/// A property line as RFC 5545 section 3.1 has it written: folded so that
/// no line exceeds 75 octets, and ended by CRLF.
pub open spec fn folded_property(line: Seq<char>) -> Seq<char> {
    folded(line, 75) + "\r\n"@
}

/// Whether `part` occurs in `whole`.
pub open spec fn has_factor(whole: Seq<char>, part: Seq<char>) -> bool {
    exists|pre: Seq<char>, post: Seq<char>| #[trigger] (pre + part + post) == whole
}

/// A text occurs in any text that holds it between two others.
pub proof fn lemma_has_factor(pre: Seq<char>, part: Seq<char>, post: Seq<char>)
    ensures
        has_factor(pre + part + post, part),
{
    assert((pre + part + post) == pre + part + post);
}

/// A text occurs in any text that ends with it.
pub proof fn lemma_factor_at_end(pre: Seq<char>, part: Seq<char>)
    ensures
        has_factor(pre + part, part),
{
    assert(pre + part + Seq::<char>::empty() =~= pre + part);
}

/// A text that occurs in `w` occurs in `w` followed by anything.
pub proof fn lemma_factor_extend(w: Seq<char>, part: Seq<char>, x: Seq<char>)
    requires
        has_factor(w, part),
    ensures
        has_factor(w + x, part),
{
    let (pre, post) = choose|pre: Seq<char>, post: Seq<char>| #[trigger] (pre + part + post) == w;
    assert(pre + part + (post + x) =~= w + x);
}

/// A line that can be folded without cutting a character apart.
pub open spec fn line_foldable(line: Seq<char>) -> bool {
    cuts_on_char_boundaries(encode_utf8(line), LINE_WIDTH as nat)
}

/// A line made of ASCII characters can always be folded.
pub proof fn lemma_ascii_line_foldable(line: Seq<char>)
    requires
        is_ascii_chars(line),
    ensures
        line_foldable(line),
{
    is_ascii_chars_encode_utf8(line);
    let b = encode_utf8(line);
    assert forall|i: int| 0 < i < b.len() && is_fold_cut(i, LINE_WIDTH as nat) implies !is_continuation_byte(
        #[trigger] b[i],
    ) by {
        assert(b[i] == line[i] as u8);
    }
}

/// The line `name:value` when a value is present, nothing otherwise.
pub open spec fn optional_line(name: Seq<char>, val: Option<Seq<char>>) -> Seq<char> {
    match val {
        Some(v) => content_line(name + ":"@ + v),
        None => Seq::empty(),
    }
}

/// Whether the line `name:value` of a present value can be folded.
pub open spec fn optional_line_foldable(name: Seq<char>, val: Option<Seq<char>>) -> bool {
    val matches Some(v) ==> line_foldable(name + ":"@ + v)
}

/// The view of an optional text.
pub open spec fn opt_text(val: Option<&str>) -> Option<Seq<char>> {
    match val {
        Some(v) => Some(v@),
        None => None,
    }
}

/// The view of an optional owned text.
pub open spec fn opt_string(val: Option<String>) -> Option<Seq<char>> {
    match val {
        Some(v) => Some(v@),
        None => None,
    }
}

/// Borrows the text of an optional owned string.
pub fn as_opt_str(val: &Option<String>) -> (r: Option<&str>)
    ensures
        opt_text(r) == opt_string(*val),
{
    match val {
        Some(v) => Some(v.as_str()),
        None => None,
    }
}

/// Appends the folded line `line` and its CRLF to `f`.
pub fn write_content_line(f: &mut String, line: &str)
    requires
        line_foldable(line@),
    ensures
        final(f)@ == old(f)@ + content_line(line@),
{
    let wrapped = wrap_icalendar_line(line, LINE_WIDTH);
    f.append(wrapped.as_str());
    f.append("\r\n");
    assert(final(f)@ =~= old(f)@ + content_line(line@));
}

/// Whether the line `name:value` of a present value can be folded.
pub fn optional_line_can_fold(name: &str, val: Option<&str>) -> (b: bool)
    ensures
        b == optional_line_foldable(name@, opt_text(val)),
{
    match val {
        None => true,
        Some(v) => {
            let mut line = String::new();
            line.append(name);
            line.append(":");
            line.append(v);
            folds_on_char_boundaries(line.as_str(), LINE_WIDTH)
        },
    }
}

/// Writes `name:value` as a content line when `val` holds a value.
pub fn if_some_write(f: &mut String, name: &str, val: Option<&str>)
    requires
        optional_line_foldable(name@, opt_text(val)),
    ensures
        final(f)@ == old(f)@ + optional_line(name@, opt_text(val)),
{
    if let Some(v) = val {
        let mut line = String::new();
        line.append(name);
        line.append(":");
        line.append(v);
        assert(line@ =~= name@ + ":"@ + v@);
        write_content_line(f, line.as_str());
    } else {
        assert(final(f)@ =~= old(f)@);
    }
}

/// The line `name` followed by the parameters and value of a property, when
/// one is present.
pub open spec fn optional_param_line(name: Seq<char>, val: Option<IcalParam<String>>) -> Seq<
    char,
> {
    match val {
        Some(p) => content_line(name + p.text()),
        None => Seq::empty(),
    }
}

/// Whether the line of a present parameterised property can be folded.
pub open spec fn optional_param_line_foldable(
    name: Seq<char>,
    val: Option<IcalParam<String>>,
) -> bool {
    val matches Some(p) ==> line_foldable(name + p.text())
}

/// Whether the line of a present parameterised property can be folded.
pub fn optional_param_line_can_fold(name: &str, val: &Option<IcalParam<String>>) -> (b: bool)
    ensures
        b == optional_param_line_foldable(name@, *val),
{
    match val {
        None => true,
        Some(p) => {
            let mut line = String::new();
            line.append(name);
            let text = p.to_string();
            line.append(text.as_str());
            folds_on_char_boundaries(line.as_str(), LINE_WIDTH)
        },
    }
}

/// Writes `name` followed by the property's parameters and value as a
/// content line when `val` holds a property.
pub fn if_some_write_param(f: &mut String, name: &str, val: &Option<IcalParam<String>>)
    requires
        optional_param_line_foldable(name@, *val),
    ensures
        final(f)@ == old(f)@ + optional_param_line(name@, *val),
{
    if let Some(p) = val {
        let mut line = String::new();
        line.append(name);
        let text = p.to_string();
        line.append(text.as_str());
        assert(line@ =~= name@ + p.text());
        write_content_line(f, line.as_str());
    } else {
        assert(final(f)@ =~= old(f)@);
    }
}

/// The chrono pattern of an iCalendar UTC date-time, `YYYYMMDDTHHMMSSZ`.
pub open spec fn ical_pattern() -> Seq<char> {
    "%Y%m%dT%H%M%SZ"@
}

/// The iCalendar text of an instant.
pub open spec fn ical_stamp(t: UtcTime) -> Seq<char> {
    chrono_format_utc(t@, ical_pattern())
}

/// Renders an instant as an iCalendar UTC date-time.
pub fn to_icalendar_timestamp(t: UtcTime) -> (s: String)
    ensures
        s@ == ical_stamp(t),
        is_ascii_chars(s@),
{
    proof {
        reveal_strlit("%Y%m%dT%H%M%SZ");
        let p = "%Y%m%dT%H%M%SZ"@;
        assert(p.len() == 14);
        assert(numeric_pattern(p));
    }
    format_utc(t, "%Y%m%dT%H%M%SZ")
}

/// The line `name:date-time` when an instant is present, nothing otherwise.
pub open spec fn optional_date_line(name: Seq<char>, val: Option<UtcTime>) -> Seq<char> {
    match val {
        Some(t) => content_line(name + ":"@ + ical_stamp(t)),
        None => Seq::empty(),
    }
}

/// A line that can be folded stays foldable when ASCII text is appended.
pub proof fn lemma_foldable_ascii_suffix(p: Seq<char>, q: Seq<char>)
    requires
        line_foldable(p),
        is_ascii_chars(q),
    ensures
        line_foldable(p + q),
{
    lemma_encode_utf8_concat(p, q);
    is_ascii_chars_encode_utf8(q);
    let bp = encode_utf8(p);
    let bq = encode_utf8(q);
    let b = encode_utf8(p + q);
    assert forall|i: int| 0 < i < b.len() && is_fold_cut(i, LINE_WIDTH as nat) implies !is_continuation_byte(
        #[trigger] b[i],
    ) by {
        if i < bp.len() {
            assert(b[i] == bp[i]);
        } else {
            let k = i - bp.len();
            assert(b[i] == bq[k]);
            assert(q[k] as u8 == bq[k]);
            assert('\0' <= q[k] <= '\u{7f}');
        }
    }
}

/// Writes `name:date-time` as a content line when `val` holds an instant.
/// The date-time is ASCII, so only the name can put a character across a
/// fold.
pub fn if_some_write_date(f: &mut String, name: &str, val: Option<UtcTime>)
    requires
        val is Some ==> line_foldable(name@ + ":"@),
    ensures
        final(f)@ == old(f)@ + optional_date_line(name@, val),
{
    if let Some(t) = val {
        let stamp = to_icalendar_timestamp(t);
        let mut line = String::new();
        line.append(name);
        line.append(":");
        line.append(stamp.as_str());
        proof {
            reveal_strlit(":");
            assert(line@ =~= name@ + ":"@ + ical_stamp(t));
            lemma_foldable_ascii_suffix(name@ + ":"@, ical_stamp(t));
        }
        write_content_line(f, line.as_str());
    } else {
        assert(final(f)@ =~= old(f)@);
    }
}

/// Calendar user type (RFC 5545 section 3.2.3).
pub enum UserType {
    Individual,
    Group,
    Resource,
    Room,
    Unknown,
}

/// Inline encoding (RFC 5545 section 3.2.7).
pub enum EncodingType {
    EightBit,
    BaseSixtyFour,
}

/// Free/busy time type (RFC 5545 section 3.2.9).
pub enum FreeBusyType {
    Free,
    Busy,
    BusyUnavailable,
    BusyAvailable,
}

} // verus!
