//! The `VALARM` calendar component.

use vstd::prelude::*;
use vstd::string::*;
use vstd::utf8::*;

use crate::icalendar::parameter::IcalParam;
use crate::icalendar::{
    as_opt_str, ical_stamp, if_some_write, if_some_write_param, lemma_ascii_line_foldable,
    folded_property, has_factor, lemma_factor_at_end, lemma_factor_extend, opt_string,
    optional_line, optional_line_can_fold, optional_line_foldable, optional_param_line,
    optional_param_line_can_fold, optional_param_line_foldable, to_icalendar_timestamp,
};
use crate::text::{lemma_ascii_concat, lemma_nat_decimal_ascii, nat_decimal, u64_decimal};
use crate::time::UtcTime;

verus! {

broadcast use vstd::seq::group_seq_axioms;

/// An alarm that plays a sound.
pub struct AudioAlarm {
    pub trigger: UtcTime,
    pub duration: Option<String>,
    pub repeat: Option<u32>,
    pub attach: Option<IcalParam<String>>,
}

/// An alarm that shows a text.
pub struct DisplayAlarm {
    pub trigger: UtcTime,
    pub description: String,
    pub duration: Option<String>,
    pub repeat: Option<u32>,
}

/// An alarm that sends an email.
pub struct EmailAlarm {
    pub trigger: UtcTime,
    pub description: String,
    pub summary: String,
    pub duration: Option<String>,
    pub repeat: Option<u32>,
}

/// A reminder attached to a calendar component.
pub enum Alarm {
    Audio(AudioAlarm),
    Display(DisplayAlarm),
    Email(EmailAlarm),
}

/// The decimal text of an optional count.
pub open spec fn opt_count(v: Option<u32>) -> Option<Seq<char>> {
    match v {
        Some(n) => Some(nat_decimal(n as nat)),
        None => None,
    }
}

/// The `TRIGGER` line of an alarm, written without folding.
pub open spec fn trigger_line(t: UtcTime) -> Seq<char> {
    "TRIGGER:"@ + ical_stamp(t) + "\r\n"@
}

impl Alarm {
    /// The value of the alarm's `ACTION` property.
    pub open spec fn action(self) -> Seq<char> {
        match self {
            Alarm::Audio(_) => "AUDIO"@,
            Alarm::Display(_) => "DISPLAY"@,
            Alarm::Email(_) => "EMAIL"@,
        }
    }

    /// The alarm's repeat count.
    pub open spec fn repeat(self) -> Option<u32> {
        match self {
            Alarm::Audio(a) => a.repeat,
            Alarm::Display(a) => a.repeat,
            Alarm::Email(a) => a.repeat,
        }
    }

    /// The alarm's repeat interval.
    pub open spec fn duration(self) -> Option<String> {
        match self {
            Alarm::Audio(a) => a.duration,
            Alarm::Display(a) => a.duration,
            Alarm::Email(a) => a.duration,
        }
    }

    /// Whether the free-text lines of the alarm can be folded.
    pub open spec fn lines_foldable(self) -> bool {
        &&& match self {
            Alarm::Audio(a) => optional_param_line_foldable("ATTACH"@, a.attach),
            Alarm::Display(a) => optional_line_foldable("DESCRIPTION"@, Some(a.description@)),
            Alarm::Email(a) => {
                &&& optional_line_foldable("DESCRIPTION"@, Some(a.description@))
                &&& optional_line_foldable("SUMMARY"@, Some(a.summary@))
            },
        }
        &&& optional_line_foldable("DURATION"@, opt_string(self.duration()))
    }

    /// Whether the free-text lines of the alarm can be folded, which writing
    /// the alarm needs.
    pub fn can_fold_lines(&self) -> (b: bool)
        ensures
            b == self.lines_foldable(),
    {
        let (own, duration) = match self {
            Alarm::Audio(a) => (optional_param_line_can_fold("ATTACH", &a.attach), &a.duration),
            Alarm::Display(a) => (
                optional_line_can_fold("DESCRIPTION", Some(a.description.as_str())),
                &a.duration,
            ),
            Alarm::Email(a) => (
                optional_line_can_fold("DESCRIPTION", Some(a.description.as_str()))
                    && optional_line_can_fold("SUMMARY", Some(a.summary.as_str())),
                &a.duration,
            ),
        };
        own && optional_line_can_fold("DURATION", as_opt_str(duration))
    }

    /// The lines that follow `TRIGGER` and are particular to the kind of
    /// alarm (RFC 5545 section 3.6.6): the attachment of a sound, the text
    /// a display shows, the text and subject of an email.
    pub open spec fn kind_lines(self) -> Seq<char> {
        match self {
            Alarm::Audio(a) => optional_param_line("ATTACH"@, a.attach),
            Alarm::Display(a) => optional_line("DESCRIPTION"@, Some(a.description@)),
            Alarm::Email(a) => optional_line("DESCRIPTION"@, Some(a.description@)) + optional_line(
                "SUMMARY"@,
                Some(a.summary@),
            ),
        }
    }

    /// The trigger of the alarm.
    pub open spec fn trigger(self) -> UtcTime {
        match self {
            Alarm::Audio(a) => a.trigger,
            Alarm::Display(a) => a.trigger,
            Alarm::Email(a) => a.trigger,
        }
    }

    /// The iCalendar text of the alarm.
    pub open spec fn text(self) -> Seq<char> {
        "BEGIN:VALARM\r\n"@ + "ACTION:"@ + self.action() + "\r\n"@ + trigger_line(self.trigger())
            + self.kind_lines() + optional_line("REPEAT"@, opt_count(self.repeat()))
            + optional_line("DURATION"@, opt_string(self.duration())) + "END:VALARM"@
    }

    /// The iCalendar text of the alarm, as its `Display` writes it.
    pub fn to_string(&self) -> (s: String)
        requires
            self.lines_foldable(),
        ensures
            s@ == self.text(),
    {
        let mut f = String::new();
        f.append("BEGIN:VALARM\r\n");
        f.append("ACTION:");
        match self {
            Alarm::Audio(_) => f.append("AUDIO"),
            Alarm::Display(_) => f.append("DISPLAY"),
            Alarm::Email(_) => f.append("EMAIL"),
        }
        f.append("\r\n");
        let ghost head = f@;
        let (trigger, repeat, duration) = match self {
            Alarm::Audio(a) => (a.trigger, a.repeat, &a.duration),
            Alarm::Display(a) => (a.trigger, a.repeat, &a.duration),
            Alarm::Email(a) => (a.trigger, a.repeat, &a.duration),
        };
        f.append("TRIGGER:");
        let stamp = to_icalendar_timestamp(trigger);
        f.append(stamp.as_str());
        f.append("\r\n");
        assert(f@ =~= head + trigger_line(trigger));
        let ghost before_kind = f@;
        match self {
            Alarm::Audio(a) => {
                if_some_write_param(&mut f, "ATTACH", &a.attach);
            },
            Alarm::Display(a) => {
                if_some_write(&mut f, "DESCRIPTION", Some(a.description.as_str()));
            },
            Alarm::Email(a) => {
                if_some_write(&mut f, "DESCRIPTION", Some(a.description.as_str()));
                if_some_write(&mut f, "SUMMARY", Some(a.summary.as_str()));
            },
        }
        assert(f@ =~= before_kind + self.kind_lines());
        let repeat_text: Option<String> = match repeat {
            Some(n) => Some(u64_decimal(n as u64)),
            None => None,
        };
        proof {
            if let Some(n) = repeat {
                reveal_strlit("REPEAT");
                reveal_strlit(":");
                lemma_nat_decimal_ascii(n as nat);
                lemma_ascii_concat("REPEAT"@, ":"@);
                lemma_ascii_concat("REPEAT"@ + ":"@, nat_decimal(n as nat));
                lemma_ascii_line_foldable("REPEAT"@ + ":"@ + nat_decimal(n as nat));
            }
        }
        if_some_write(&mut f, "REPEAT", as_opt_str(&repeat_text));
        if_some_write(&mut f, "DURATION", as_opt_str(duration));
        f.append("END:VALARM");
        assert(f@ =~= self.text());
        f
    }
}

/// The properties of an alarm are written as RFC 5545 content lines folded
/// at 75 octets: the `ATTACH` line of a sound (with its parameters), the
/// `DESCRIPTION` line of a display or email alarm, the `SUMMARY` line of an
/// email alarm and the `DURATION` line of any alarm that has one occur in
/// its text.
pub proof fn lemma_alarm_text_lines(a: Alarm)
    ensures
        a matches Alarm::Audio(x) ==> (x.attach matches Some(p) ==> has_factor(
            a.text(),
            folded_property("ATTACH"@ + p.text()),
        )),
        a matches Alarm::Display(x) ==> has_factor(
            a.text(),
            folded_property("DESCRIPTION:"@ + x.description@),
        ),
        a matches Alarm::Email(x) ==> has_factor(
            a.text(),
            folded_property("DESCRIPTION:"@ + x.description@),
        ) && has_factor(a.text(), folded_property("SUMMARY:"@ + x.summary@)),
        a.duration() matches Some(d) ==> has_factor(a.text(), folded_property("DURATION:"@ + d@)),
{
    reveal_strlit("DESCRIPTION:");
    reveal_strlit("DESCRIPTION");
    reveal_strlit("SUMMARY:");
    reveal_strlit("SUMMARY");
    reveal_strlit("DURATION:");
    reveal_strlit("DURATION");
    reveal_strlit(":");
    let l0 = "BEGIN:VALARM\r\n"@ + "ACTION:"@ + a.action() + "\r\n"@ + trigger_line(a.trigger());
    let l1 = l0 + a.kind_lines();
    let rep = optional_line("REPEAT"@, opt_count(a.repeat()));
    let dur = optional_line("DURATION"@, opt_string(a.duration()));
    let end = "END:VALARM"@;
    let l2 = l1 + rep;
    let l3 = l2 + dur;
    assert(a.text() == l3 + end);
    match a {
        Alarm::Audio(x) => {
            if let Some(p) = x.attach {
                let att = folded_property("ATTACH"@ + p.text());
                assert(a.kind_lines() == att);
                lemma_factor_at_end(l0, att);
                lemma_factor_extend(l1, att, rep);
                lemma_factor_extend(l2, att, dur);
                lemma_factor_extend(l3, att, end);
            }
        },
        Alarm::Display(x) => {
            let desc = folded_property("DESCRIPTION:"@ + x.description@);
            assert("DESCRIPTION"@ + ":"@ + x.description@ =~= "DESCRIPTION:"@ + x.description@);
            assert(a.kind_lines() == desc);
            lemma_factor_at_end(l0, desc);
            lemma_factor_extend(l1, desc, rep);
            lemma_factor_extend(l2, desc, dur);
            lemma_factor_extend(l3, desc, end);
        },
        Alarm::Email(x) => {
            let desc = folded_property("DESCRIPTION:"@ + x.description@);
            let summ = folded_property("SUMMARY:"@ + x.summary@);
            assert("DESCRIPTION"@ + ":"@ + x.description@ =~= "DESCRIPTION:"@ + x.description@);
            assert("SUMMARY"@ + ":"@ + x.summary@ =~= "SUMMARY:"@ + x.summary@);
            assert(a.kind_lines() == desc + summ);
            lemma_factor_at_end(l0, desc);
            lemma_factor_extend(l0 + desc, desc, summ);
            assert(l0 + desc + summ =~= l1);
            lemma_factor_extend(l1, desc, rep);
            lemma_factor_extend(l2, desc, dur);
            lemma_factor_extend(l3, desc, end);
            lemma_factor_at_end(l0 + desc, summ);
            assert(l0 + desc + summ == l1);
            lemma_factor_extend(l1, summ, rep);
            lemma_factor_extend(l2, summ, dur);
            lemma_factor_extend(l3, summ, end);
        },
    }
    if let Some(d) = a.duration() {
        assert("DURATION"@ + ":"@ + d@ =~= "DURATION:"@ + d@);
        assert(dur == folded_property("DURATION:"@ + d@));
        lemma_factor_at_end(l2, dur);
        lemma_factor_extend(l3, dur, end);
    }
}

} // verus!
