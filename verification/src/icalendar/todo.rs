//! The `VTODO` calendar component.

use vstd::prelude::*;
use vstd::string::*;
use vstd::utf8::*;

use crate::icalendar::alarm::Alarm;
use crate::icalendar::parameter::IcalParam;
use crate::icalendar::{
    as_opt_str, ical_stamp, if_some_write, if_some_write_date, if_some_write_param,
    folded_property, has_factor, lemma_ascii_line_foldable, lemma_factor_at_end,
    lemma_factor_extend, opt_string,
    optional_date_line, optional_line,
    optional_line_can_fold, optional_line_foldable, optional_param_line,
    optional_param_line_can_fold, optional_param_line_foldable, to_icalendar_timestamp,
};
use crate::text::{append_int_decimal, int_decimal, lemma_ascii_concat, lemma_int_decimal_ascii};
use crate::time::{now, UtcTime};
use crate::uid::{is_random_uid, new_v4_uid, uid_hyphenated, uid_text};

verus! {

broadcast use vstd::seq::group_seq_axioms;

/// Status of a to-do.
#[derive(Clone, Copy, Debug, PartialEq, Eq)]
pub enum TodoStatus {
    NeedsAction,
    Accepted,
    Declined,
    Tentative,
    Delegated,
    Completed,
    InProcess,
}

impl TodoStatus {
    /// The text of the status as it appears in a `STATUS` property.
    pub open spec fn text(self) -> Seq<char> {
        match self {
            TodoStatus::NeedsAction => "NEEDS-ACTION"@,
            TodoStatus::Accepted => "ACCEPTED"@,
            TodoStatus::Declined => "DECLINED"@,
            TodoStatus::Tentative => "TENTATIVE"@,
            TodoStatus::Delegated => "DELEGATED"@,
            TodoStatus::Completed => "COMPLETED"@,
            TodoStatus::InProcess => "IN-PROCESS"@,
        }
    }

    /// The text of the status as it appears in a `STATUS` property.
    pub fn as_str(&self) -> (s: &'static str)
        ensures
            s@ == self.text(),
            is_ascii_chars(s@),
    {
        proof {
            reveal_strlit("NEEDS-ACTION");
            reveal_strlit("ACCEPTED");
            reveal_strlit("DECLINED");
            reveal_strlit("TENTATIVE");
            reveal_strlit("DELEGATED");
            reveal_strlit("COMPLETED");
            reveal_strlit("IN-PROCESS");
        }
        match self {
            TodoStatus::NeedsAction => "NEEDS-ACTION",
            TodoStatus::Accepted => "ACCEPTED",
            TodoStatus::Declined => "DECLINED",
            TodoStatus::Tentative => "TENTATIVE",
            TodoStatus::Delegated => "DELEGATED",
            TodoStatus::Completed => "COMPLETED",
            TodoStatus::InProcess => "IN-PROCESS",
        }
    }

    /// The text of the status, as its `Display` writes it.
    pub fn to_string(&self) -> (s: String)
        ensures
            s@ == self.text(),
    {
        let mut s = String::new();
        s.append(self.as_str());
        assert(s@ =~= self.text());
        s
    }
}

/// Distinct to-do statuses are written as distinct texts, so the `STATUS`
/// line of a to-do tells which status it holds.
pub proof fn lemma_todo_status_text_injective(a: TodoStatus, b: TodoStatus)
    ensures
        a.text() == b.text() ==> a == b,
{
    reveal_strlit("NEEDS-ACTION");
    reveal_strlit("ACCEPTED");
    reveal_strlit("DECLINED");
    reveal_strlit("TENTATIVE");
    reveal_strlit("DELEGATED");
    reveal_strlit("COMPLETED");
    reveal_strlit("IN-PROCESS");
    if a.text() == b.text() {
        assert(a.text().len() == b.text().len());
        assert(a.text()[0] == b.text()[0]);
    }
}

/// The view of an optional to-do status.
pub open spec fn opt_todo_status(s: Option<TodoStatus>) -> Option<Seq<char>> {
    match s {
        Some(st) => Some(st.text()),
        None => None,
    }
}

/// The decimal text of an optional sequence number.
pub open spec fn opt_sequence(v: Option<i32>) -> Option<Seq<char>> {
    match v {
        Some(n) => Some(int_decimal(n as int)),
        None => None,
    }
}

/// A to-do item.
pub struct Todo {
    pub uid: u128,
    pub timestamp: UtcTime,
    pub object_class: Option<String>,
    pub completed: Option<bool>,
    pub created: Option<UtcTime>,
    pub description: Option<String>,
    pub start: Option<UtcTime>,
    pub geo: Option<String>,
    pub last_mod: Option<UtcTime>,
    pub location: Option<String>,
    pub organizer: Option<String>,
    /// Percent complete, an integer from 0 to 100 (RFC 5545 section 3.8.1.8).
    pub percent: Option<u8>,
    pub priority: Option<std::convert::Infallible>,
    pub recur_id: Option<String>,
    pub seq: Option<i32>,
    pub status: Option<TodoStatus>,
    pub summary: Option<String>,
    pub rrule: Option<String>,
    pub atendee: Option<IcalParam<String>>,
    // Only one of these can be set at the same time.
    pub due: Option<UtcTime>,
    pub duration: Option<std::convert::Infallible>,
    pub alarm: Option<Alarm>,
}

/// The text of an optional alarm followed by CRLF.
pub open spec fn optional_alarm(a: Option<Alarm>) -> Seq<char> {
    match a {
        Some(a) => a.text() + "\r\n"@,
        None => Seq::empty(),
    }
}

impl Todo {
    /// Whether the free-text lines of the to-do and its alarm can be folded.
    pub open spec fn lines_foldable(self) -> bool {
        &&& optional_line_foldable("ORGANIZER"@, opt_string(self.organizer))
        &&& optional_param_line_foldable("ATTENDEE"@, self.atendee)
        &&& optional_line_foldable("SUMMARY"@, opt_string(self.summary))
        &&& (self.alarm matches Some(a) ==> a.lines_foldable())
    }

    /// Whether the free-text lines of the to-do and its alarm can be folded,
    /// which writing the to-do needs.
    pub fn can_fold_lines(&self) -> (b: bool)
        ensures
            b == self.lines_foldable(),
    {
        let alarm_ok = match &self.alarm {
            Some(a) => a.can_fold_lines(),
            None => true,
        };
        optional_line_can_fold("ORGANIZER", as_opt_str(&self.organizer))
            && optional_param_line_can_fold("ATTENDEE", &self.atendee)
            && optional_line_can_fold("SUMMARY", as_opt_str(&self.summary))
            && alarm_ok
    }

    /// The iCalendar text of the to-do.
    pub open spec fn text(self) -> Seq<char> {
        "BEGIN:VTODO\r\n"@ + "UID:"@ + uid_hyphenated(self.uid) + "\r\n"@ + "DTSTAMP:"@
            + ical_stamp(self.timestamp) + "\r\n"@ + optional_line(
            "SEQUENCE"@,
            opt_sequence(self.seq),
        ) + optional_line("ORGANIZER"@, opt_string(self.organizer)) + optional_param_line(
            "ATTENDEE"@,
            self.atendee,
        ) + optional_date_line("DUE"@, self.due) + optional_line(
            "STATUS"@,
            opt_todo_status(self.status),
        ) + optional_line("SUMMARY"@, opt_string(self.summary)) + optional_alarm(self.alarm)
            + "END:VTODO"@
    }

    /// The iCalendar text of the to-do, as its `Display` writes it.
    pub fn to_string(&self) -> (s: String)
        requires
            self.lines_foldable(),
        ensures
            s@ == self.text(),
    {
        let mut f = String::new();
        f.append("BEGIN:VTODO\r\n");
        f.append("UID:");
        let uid = uid_text(self.uid);
        f.append(uid.as_str());
        f.append("\r\n");
        f.append("DTSTAMP:");
        let stamp = to_icalendar_timestamp(self.timestamp);
        f.append(stamp.as_str());
        f.append("\r\n");
        let seq: Option<String> = match self.seq {
            Some(n) => {
                let mut s = String::new();
                append_int_decimal(&mut s, n as i64);
                assert(s@ =~= int_decimal(n as int));
                Some(s)
            },
            None => None,
        };
        proof {
            reveal_strlit(":");
            if let Some(n) = self.seq {
                reveal_strlit("SEQUENCE");
                lemma_int_decimal_ascii(n as int);
                lemma_ascii_concat("SEQUENCE"@, ":"@);
                lemma_ascii_concat("SEQUENCE"@ + ":"@, int_decimal(n as int));
                lemma_ascii_line_foldable("SEQUENCE"@ + ":"@ + int_decimal(n as int));
            }
        }
        if_some_write(&mut f, "SEQUENCE", as_opt_str(&seq));
        if_some_write(&mut f, "ORGANIZER", as_opt_str(&self.organizer));
        if_some_write_param(&mut f, "ATTENDEE", &self.atendee);
        proof {
            reveal_strlit("DUE");
            reveal_strlit(":");
            lemma_ascii_concat("DUE"@, ":"@);
            lemma_ascii_line_foldable("DUE"@ + ":"@);
        }
        if_some_write_date(&mut f, "DUE", self.due);
        let status: Option<&str> = match &self.status {
            Some(st) => Some(st.as_str()),
            None => None,
        };
        proof {
            if let Some(st) = self.status {
                reveal_strlit("STATUS");
                lemma_ascii_concat("STATUS"@, ":"@);
                lemma_ascii_concat("STATUS"@ + ":"@, st.text());
                lemma_ascii_line_foldable("STATUS"@ + ":"@ + st.text());
            }
        }
        if_some_write(&mut f, "STATUS", status);
        if_some_write(&mut f, "SUMMARY", as_opt_str(&self.summary));
        let ghost before_alarm = f@;
        if let Some(alarm) = &self.alarm {
            let a = alarm.to_string();
            f.append(a.as_str());
            f.append("\r\n");
        }
        assert(f@ =~= before_alarm + optional_alarm(self.alarm));
        f.append("END:VTODO");
        assert(f@ =~= self.text());
        f
    }
}

/// The properties of a to-do are written as RFC 5545 content lines folded
/// at 75 octets: the `ORGANIZER`, `ATTENDEE` (with its parameters), `DUE`,
/// `STATUS` and `SUMMARY` lines of the properties it holds occur in its
/// text, the `STATUS` line giving the status it holds.
pub proof fn lemma_todo_text_lines(t: Todo)
    ensures
        t.organizer matches Some(v) ==> has_factor(t.text(), folded_property("ORGANIZER:"@ + v@)),
        t.atendee matches Some(p) ==> has_factor(t.text(), folded_property("ATTENDEE"@ + p.text())),
        t.due matches Some(d) ==> has_factor(t.text(), folded_property("DUE:"@ + ical_stamp(d))),
        t.status matches Some(st) ==> has_factor(t.text(), folded_property("STATUS:"@ + st.text())),
        t.summary matches Some(v) ==> has_factor(t.text(), folded_property("SUMMARY:"@ + v@)),
{
    let l0 = "BEGIN:VTODO\r\n"@ + "UID:"@ + uid_hyphenated(t.uid) + "\r\n"@ + "DTSTAMP:"@
        + ical_stamp(t.timestamp) + "\r\n"@ + optional_line("SEQUENCE"@, opt_sequence(t.seq));
    let org = optional_line("ORGANIZER"@, opt_string(t.organizer));
    let att = optional_param_line("ATTENDEE"@, t.atendee);
    let due = optional_date_line("DUE"@, t.due);
    let sta = optional_line("STATUS"@, opt_todo_status(t.status));
    let sum = optional_line("SUMMARY"@, opt_string(t.summary));
    let alarm = optional_alarm(t.alarm);
    let end = "END:VTODO"@;
    let l1 = l0 + org;
    let l2 = l1 + att;
    let l3 = l2 + due;
    let l4 = l3 + sta;
    let l5 = l4 + sum;
    let l6 = l5 + alarm;
    assert(t.text() == l6 + end);
    if let Some(v) = t.organizer {
        reveal_strlit("ORGANIZER:");
        reveal_strlit("ORGANIZER");
        reveal_strlit(":");
        assert("ORGANIZER"@ + ":"@ + v@ =~= "ORGANIZER:"@ + v@);
        assert(org == folded_property("ORGANIZER:"@ + v@));
        lemma_factor_at_end(l0, org);
        lemma_factor_extend(l1, org, att);
        lemma_factor_extend(l2, org, due);
        lemma_factor_extend(l3, org, sta);
        lemma_factor_extend(l4, org, sum);
        lemma_factor_extend(l5, org, alarm);
        lemma_factor_extend(l6, org, end);
    }
    if let Some(p) = t.atendee {
        assert(att == folded_property("ATTENDEE"@ + p.text()));
        lemma_factor_at_end(l1, att);
        lemma_factor_extend(l2, att, due);
        lemma_factor_extend(l3, att, sta);
        lemma_factor_extend(l4, att, sum);
        lemma_factor_extend(l5, att, alarm);
        lemma_factor_extend(l6, att, end);
    }
    if let Some(d) = t.due {
        reveal_strlit("DUE:");
        reveal_strlit("DUE");
        reveal_strlit(":");
        assert("DUE"@ + ":"@ + ical_stamp(d) =~= "DUE:"@ + ical_stamp(d));
        assert(due == folded_property("DUE:"@ + ical_stamp(d)));
        lemma_factor_at_end(l2, due);
        lemma_factor_extend(l3, due, sta);
        lemma_factor_extend(l4, due, sum);
        lemma_factor_extend(l5, due, alarm);
        lemma_factor_extend(l6, due, end);
    }
    if let Some(st) = t.status {
        reveal_strlit("STATUS:");
        reveal_strlit("STATUS");
        reveal_strlit(":");
        assert("STATUS"@ + ":"@ + st.text() =~= "STATUS:"@ + st.text());
        assert(sta == folded_property("STATUS:"@ + st.text()));
        lemma_factor_at_end(l3, sta);
        lemma_factor_extend(l4, sta, sum);
        lemma_factor_extend(l5, sta, alarm);
        lemma_factor_extend(l6, sta, end);
    }
    if let Some(v) = t.summary {
        reveal_strlit("SUMMARY:");
        reveal_strlit("SUMMARY");
        reveal_strlit(":");
        assert("SUMMARY"@ + ":"@ + v@ =~= "SUMMARY:"@ + v@);
        assert(sum == folded_property("SUMMARY:"@ + v@));
        lemma_factor_at_end(l4, sum);
        lemma_factor_extend(l5, sum, alarm);
        lemma_factor_extend(l6, sum, end);
    }
}

impl Default for Todo {
    /// A to-do with a fresh random identifier, stamped now, without any
    /// optional property.
    fn default() -> (t: Self)
        ensures
            is_random_uid(t.uid),
            t.object_class is None,
            t.completed is None,
            t.created is None,
            t.description is None,
            t.start is None,
            t.geo is None,
            t.last_mod is None,
            t.location is None,
            t.organizer is None,
            t.percent is None,
            t.priority is None,
            t.recur_id is None,
            t.seq is None,
            t.status is None,
            t.summary is None,
            t.rrule is None,
            t.due is None,
            t.duration is None,
            t.atendee is None,
            t.alarm is None,
    {
        Self {
            uid: new_v4_uid(),
            timestamp: now(),
            object_class: None,
            completed: None,
            created: None,
            description: None,
            start: None,
            geo: None,
            last_mod: None,
            location: None,
            organizer: None,
            percent: None,
            priority: None,
            recur_id: None,
            seq: None,
            status: None,
            summary: None,
            rrule: None,
            due: None,
            duration: None,
            atendee: None,
            alarm: None,
        }
    }
}

} // verus!
