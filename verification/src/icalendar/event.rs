//! The `VEVENT` calendar component.

use vstd::prelude::*;
use vstd::string::*;
use vstd::utf8::*;

use crate::icalendar::{
    as_opt_str, folded_property, has_factor, ical_stamp, if_some_write, lemma_ascii_line_foldable,
    lemma_has_factor, opt_string, optional_line, optional_line_can_fold, optional_line_foldable,
    to_icalendar_timestamp,
};
use crate::text::lemma_ascii_concat;
use crate::time::{now, UtcTime};
use crate::uid::{is_random_uid, new_v4_uid, uid_hyphenated, uid_text};

verus! {

broadcast use vstd::seq::group_seq_axioms;

/// Status of an event.
#[derive(Clone, Copy, Debug, PartialEq, Eq)]
pub enum EventStatus {
    Tentative,
    Confirmed,
    Cancelled,
}

impl EventStatus {
    /// The text of the status as it appears in a `STATUS` property.
    pub open spec fn text(self) -> Seq<char> {
        match self {
            EventStatus::Tentative => "TENTATIVE"@,
            EventStatus::Confirmed => "CONFIRMED"@,
            EventStatus::Cancelled => "CANCELLED"@,
        }
    }

    /// The text of the status as it appears in a `STATUS` property.
    pub fn as_str(&self) -> (s: &'static str)
        ensures
            s@ == self.text(),
            is_ascii_chars(s@),
    {
        proof {
            reveal_strlit("TENTATIVE");
            reveal_strlit("CONFIRMED");
            reveal_strlit("CANCELLED");
        }
        match self {
            EventStatus::Tentative => "TENTATIVE",
            EventStatus::Confirmed => "CONFIRMED",
            EventStatus::Cancelled => "CANCELLED",
        }
    }

    /// The text of the status, as its `Display` writes it.
    pub fn to_string(&self) -> (s: String)
        ensures
            s@ == self.text(),
    {
        let mut s = String::new();
        s.append(self.as_str());
        assert(s@ =~= self.text());
        s
    }
}

/// The view of an optional event status.
pub open spec fn opt_status(s: Option<EventStatus>) -> Option<Seq<char>> {
    match s {
        Some(st) => Some(st.text()),
        None => None,
    }
}

/// The line `name:date-time`, written without folding, when an instant is
/// present.
pub open spec fn optional_stamp_line(name: Seq<char>, t: Option<UtcTime>) -> Seq<char> {
    match t {
        Some(t) => name + ical_stamp(t) + "\r\n"@,
        None => Seq::empty(),
    }
}

/// A calendar event.
pub struct Event {
    pub uid: u128,
    pub timestamp: UtcTime,
    pub start: Option<UtcTime>,
    pub end: Option<UtcTime>,
    pub status: Option<EventStatus>,
    pub catagory: Option<String>,
    pub organizer: Option<String>,
    pub summary: Option<String>,
    /// Used when streaming the event as a response body.
    pub serialized: BodyState,
}

/// Distinct event statuses are written as distinct texts.
pub proof fn lemma_event_status_text_injective(a: EventStatus, b: EventStatus)
    ensures
        a.text() == b.text() ==> a == b,
{
    reveal_strlit("TENTATIVE");
    reveal_strlit("CONFIRMED");
    reveal_strlit("CANCELLED");
    if a.text() == b.text() {
        assert(a.text().len() == b.text().len());
        assert(a.text()[0] == b.text()[0]);
        assert(a.text()[1] == b.text()[1]);
    }
}

/// Progress of streaming a value as a response body: whether its text was
/// handed out and the end of the body is due next.
#[derive(Clone, Copy, Debug, PartialEq, Eq)]
pub struct BodyState {
    sent: bool,
}

impl BodyState {
    /// Whether the text was handed out since the body last ended.
    pub closed spec fn is_sent(self) -> bool {
        self.sent
    }

    /// A body that has not been streamed yet.
    pub fn new() -> (b: BodyState)
        ensures
            !b.is_sent(),
    {
        BodyState { sent: false }
    }

    /// Whether the text was handed out since the body last ended.
    pub fn sent(&self) -> (r: bool)
        ensures
            r == self.is_sent(),
    {
        self.sent
    }

    /// Records that the text was handed out (`true`) or the body ended (`false`).
    pub fn set_sent(&mut self, sent: bool)
        ensures
            final(self).is_sent() == sent,
    {
        self.sent = sent;
    }
}

impl Default for BodyState {
    /// A body that has not been streamed yet.
    fn default() -> (b: BodyState)
        ensures
            !b.is_sent(),
    {
        BodyState::new()
    }
}

impl Event {
    /// Whether the event's text was handed out as a body frame and the end of
    /// the body is due next.
    pub open spec fn is_serialized(self) -> bool {
        self.serialized.is_sent()
    }

    /// Whether the free-text lines of the event can be folded.
    pub open spec fn lines_foldable(self) -> bool {
        &&& optional_line_foldable("ORGANIZER"@, opt_string(self.organizer))
        &&& optional_line_foldable("CATEGORIES"@, opt_string(self.catagory))
        &&& optional_line_foldable("SUMMARY"@, opt_string(self.summary))
    }

    /// Whether the free-text lines of the event can be folded, which writing
    /// the event needs.
    pub fn can_fold_lines(&self) -> (b: bool)
        ensures
            b == self.lines_foldable(),
    {
        optional_line_can_fold("ORGANIZER", as_opt_str(&self.organizer))
            && optional_line_can_fold("CATEGORIES", as_opt_str(&self.catagory))
            && optional_line_can_fold("SUMMARY", as_opt_str(&self.summary))
    }

    /// The iCalendar text of the event.
    pub open spec fn text(self) -> Seq<char> {
        "BEGIN:VEVENT\r\n"@ + "DTSTAMP:"@ + ical_stamp(self.timestamp) + "\r\n"@ + "UID:"@
            + uid_hyphenated(self.uid) + "\r\n"@ + optional_line(
            "ORGANIZER"@,
            opt_string(self.organizer),
        ) + optional_stamp_line("DTSTART:"@, self.start) + optional_stamp_line(
            "DTEND:"@,
            self.end,
        ) + optional_line("STATUS"@, opt_status(self.status)) + optional_line(
            "CATEGORIES"@,
            opt_string(self.catagory),
        ) + optional_line("SUMMARY"@, opt_string(self.summary)) + "END:VEVENT"@
    }

    /// The iCalendar text of the event, as its `Display` writes it.
    pub fn to_string(&self) -> (s: String)
        requires
            self.lines_foldable(),
        ensures
            s@ == self.text(),
    {
        let mut f = String::new();
        f.append("BEGIN:VEVENT\r\n");
        f.append("DTSTAMP:");
        let stamp = to_icalendar_timestamp(self.timestamp);
        f.append(stamp.as_str());
        f.append("\r\n");
        f.append("UID:");
        let uid = uid_text(self.uid);
        f.append(uid.as_str());
        f.append("\r\n");
        let ghost head = f@;
        if_some_write(&mut f, "ORGANIZER", as_opt_str(&self.organizer));
        let ghost with_organizer = f@;
        if let Some(start) = self.start {
            f.append("DTSTART:");
            let s = to_icalendar_timestamp(start);
            f.append(s.as_str());
            f.append("\r\n");
        }
        assert(f@ =~= with_organizer + optional_stamp_line("DTSTART:"@, self.start));
        let ghost with_start = f@;
        if let Some(end) = self.end {
            f.append("DTEND:");
            let s = to_icalendar_timestamp(end);
            f.append(s.as_str());
            f.append("\r\n");
        }
        assert(f@ =~= with_start + optional_stamp_line("DTEND:"@, self.end));
        let status: Option<&str> = match &self.status {
            Some(st) => Some(st.as_str()),
            None => None,
        };
        proof {
            if let Some(st) = self.status {
                reveal_strlit("STATUS");
                reveal_strlit(":");
                lemma_ascii_concat("STATUS"@, ":"@);
                lemma_ascii_concat("STATUS"@ + ":"@, st.text());
                lemma_ascii_line_foldable("STATUS"@ + ":"@ + st.text());
            }
        }
        if_some_write(&mut f, "STATUS", status);
        if_some_write(&mut f, "CATEGORIES", as_opt_str(&self.catagory));
        if_some_write(&mut f, "SUMMARY", as_opt_str(&self.summary));
        f.append("END:VEVENT");
        assert(f@ =~= self.text());
        f
    }

    /// One step of streaming the event as a response body: a fresh event
    /// yields its text and is marked as sent; a sent event ends the body and
    /// is rearmed.
    pub fn poll_frame(&mut self) -> (r: Option<String>)
        requires
            old(self).lines_foldable(),
        ensures
            old(self).is_serialized() ==> r is None,
            !old(self).is_serialized() ==> (r matches Some(s) && s@ == old(self).text()),
            final(self).is_serialized() == !old(self).is_serialized(),
            final(self).text() == old(self).text(),
            final(self).lines_foldable(),
    {
        if self.serialized.sent() {
            self.serialized.set_sent(false);
            None
        } else {
            let out = self.to_string();
            self.serialized.set_sent(true);
            Some(out)
        }
    }
}

/// The free-text properties of an event are written as RFC 5545 content
/// lines folded at 75 octets: the `ORGANIZER` and `CATEGORIES` lines occur
/// in its text, and the text ends with the `SUMMARY` line and then
/// `END:VEVENT`.
pub proof fn lemma_event_text_lines(e: Event)
    ensures
        e.organizer matches Some(v) ==> has_factor(e.text(), folded_property("ORGANIZER:"@ + v@)),
        e.catagory matches Some(v) ==> has_factor(e.text(), folded_property("CATEGORIES:"@ + v@)),
        e.status matches Some(st) ==> has_factor(e.text(), folded_property("STATUS:"@ + st.text())),
        e.summary matches Some(v) ==> exists|pre: Seq<char>|
            #[trigger] (pre + folded_property("SUMMARY:"@ + v@)) + "END:VEVENT"@ == e.text(),
        e.summary is None ==> exists|pre: Seq<char>| #[trigger] (pre + "END:VEVENT"@) == e.text(),
{
    reveal_strlit("ORGANIZER:");
    reveal_strlit("ORGANIZER");
    reveal_strlit("CATEGORIES:");
    reveal_strlit("CATEGORIES");
    reveal_strlit("SUMMARY:");
    reveal_strlit("SUMMARY");
    reveal_strlit(":");
    let head = "BEGIN:VEVENT\r\n"@ + "DTSTAMP:"@ + ical_stamp(e.timestamp) + "\r\n"@ + "UID:"@
        + uid_hyphenated(e.uid) + "\r\n"@;
    let org = optional_line("ORGANIZER"@, opt_string(e.organizer));
    let mid = optional_stamp_line("DTSTART:"@, e.start) + optional_stamp_line("DTEND:"@, e.end)
        + optional_line("STATUS"@, opt_status(e.status));
    let cat = optional_line("CATEGORIES"@, opt_string(e.catagory));
    let sum = optional_line("SUMMARY"@, opt_string(e.summary));
    let end = "END:VEVENT"@;
    assert(e.text() =~= head + org + mid + cat + sum + end);
    if let Some(v) = e.organizer {
        assert("ORGANIZER"@ + ":"@ + v@ =~= "ORGANIZER:"@ + v@);
        assert(org =~= folded_property("ORGANIZER:"@ + v@));
        assert(e.text() =~= head + org + (mid + cat + sum + end));
        lemma_has_factor(head, org, mid + cat + sum + end);
    }
    if let Some(st) = e.status {
        reveal_strlit("STATUS:");
        reveal_strlit("STATUS");
        let sta = optional_line("STATUS"@, opt_status(e.status));
        assert("STATUS"@ + ":"@ + st.text() =~= "STATUS:"@ + st.text());
        assert(sta =~= folded_property("STATUS:"@ + st.text()));
        let pre = head + org + optional_stamp_line("DTSTART:"@, e.start) + optional_stamp_line(
            "DTEND:"@,
            e.end,
        );
        assert(e.text() =~= pre + sta + (cat + sum + end));
        lemma_has_factor(pre, sta, cat + sum + end);
    }
    if let Some(v) = e.catagory {
        assert("CATEGORIES"@ + ":"@ + v@ =~= "CATEGORIES:"@ + v@);
        assert(cat =~= folded_property("CATEGORIES:"@ + v@));
        assert(e.text() =~= (head + org + mid) + cat + (sum + end));
        lemma_has_factor(head + org + mid, cat, sum + end);
    }
    if let Some(v) = e.summary {
        assert("SUMMARY"@ + ":"@ + v@ =~= "SUMMARY:"@ + v@);
        assert(sum =~= folded_property("SUMMARY:"@ + v@));
        let pre = head + org + mid + cat;
        assert((pre + folded_property("SUMMARY:"@ + v@)) + end == e.text());
    } else {
        let pre = head + org + mid + cat;
        assert(sum =~= Seq::<char>::empty());
        assert(pre + end == e.text());
    }
}

impl Default for Event {
    /// An event with a fresh random identifier, stamped now, without any
    /// optional property.
    fn default() -> (e: Self)
        ensures
            is_random_uid(e.uid),
            e.start is None,
            e.end is None,
            e.status is None,
            e.catagory is None,
            e.organizer is None,
            e.summary is None,
            !e.is_serialized(),
    {
        Self {
            uid: new_v4_uid(),
            timestamp: now(),
            start: None,
            end: None,
            status: None,
            catagory: None,
            organizer: None,
            summary: None,
            serialized: BodyState::new(),
        }
    }
}

} // verus!
