//! Property parameters (RFC 5545 section 3.2).

use vstd::prelude::*;
use vstd::string::*;

verus! {

broadcast use vstd::seq::group_seq_axioms;

/// Participation status of an attendee.
#[derive(Clone, Copy, Debug, PartialEq, Eq)]
pub enum PartStat {
    // For both events and todos
    NeedsAction,
    Accepted,
    Declined,
    Tentative,
    Delagated,
    // Todos only
    Completed,
    InProgress,
}

impl PartStat {
    /// The text of the status as it appears in a `PARTSTAT` parameter.
    pub open spec fn text(self) -> Seq<char> {
        match self {
            PartStat::NeedsAction => "NEEDS-ACTION"@,
            PartStat::Accepted => "ACCEPTED"@,
            PartStat::Declined => "DECLINED"@,
            PartStat::Tentative => "TENTATIVE"@,
            PartStat::Delagated => "DELEGATED"@,
            PartStat::Completed => "COMPLETED"@,
            PartStat::InProgress => "IN-PROCESS"@,
        }
    }

    /// The text of the status as it appears in a `PARTSTAT` parameter.
    pub fn as_str(&self) -> (s: &'static str)
        ensures
            s@ == self.text(),
    {
        match self {
            PartStat::NeedsAction => "NEEDS-ACTION",
            PartStat::Accepted => "ACCEPTED",
            PartStat::Declined => "DECLINED",
            PartStat::Tentative => "TENTATIVE",
            PartStat::Delagated => "DELEGATED",
            PartStat::Completed => "COMPLETED",
            PartStat::InProgress => "IN-PROCESS",
        }
    }

    /// The text of the status, as its `Display` writes it.
    pub fn to_string(&self) -> (s: String)
        ensures
            s@ == self.text(),
    {
        let mut s = String::new();
        s.append(self.as_str());
        assert(s@ =~= self.text());
        s
    }
}

/// Distinct participation statuses are written as distinct texts.
pub proof fn lemma_part_stat_text_injective(a: PartStat, b: PartStat)
    ensures
        a.text() == b.text() ==> a == b,
{
    reveal_strlit("NEEDS-ACTION");
    reveal_strlit("ACCEPTED");
    reveal_strlit("DECLINED");
    reveal_strlit("TENTATIVE");
    reveal_strlit("DELEGATED");
    reveal_strlit("COMPLETED");
    reveal_strlit("IN-PROCESS");
    if a.text() == b.text() {
        assert(a.text().len() == b.text().len());
        assert(a.text()[0] == b.text()[0]);
    }
}

/// A property value together with its parameters.
pub struct IcalParam<T> {
    /// Alternate text representation
    pub alt_rep: Option<String>,
    /// Common name
    pub cn: Option<String>,
    /// Calendar user type
    pub cut_ype: Option<u32>,
    /// Delegator
    pub del_from: Option<u32>,
    /// Delegatee
    pub del_to: Option<u32>,
    /// Directory entry
    pub dir: Option<u32>,
    /// Inline encoding
    pub encoding: Option<u32>,
    /// Format type
    pub fmt_type: Option<String>,
    /// Free busy: u32, time type
    pub fb_type: Option<u32>,
    /// Language for text
    pub language: Option<u32>,
    /// Group or list membership
    pub member: Option<u32>,
    /// Participation status
    pub part_stat: Option<PartStat>,
    /// Recurrence identifier range
    pub range: Option<u32>,
    /// Alarm trigger relationship
    pub trig_rel: Option<u32>,
    /// Relationship type
    pub rel_type: Option<u32>,
    /// Participation role
    pub role: Option<u32>,
    /// RSVP expectation
    pub rsvp: Option<u32>,
    /// Sent by
    pub sent_by: Option<u32>,
    /// Reference to time zone object
    pub tz_id: Option<u32>,
    /// Property value data type
    pub value_type: Option<u32>,
    pub value: T,
}

impl<T> IcalParam<T> {
    /// Whether no parameter is set.
    pub open spec fn no_parameters(self) -> bool {
        &&& self.alt_rep is None
        &&& self.cn is None
        &&& self.cut_ype is None
        &&& self.del_from is None
        &&& self.del_to is None
        &&& self.dir is None
        &&& self.encoding is None
        &&& self.fmt_type is None
        &&& self.fb_type is None
        &&& self.language is None
        &&& self.member is None
        &&& self.part_stat is None
        &&& self.range is None
        &&& self.trig_rel is None
        &&& self.rel_type is None
        &&& self.role is None
        &&& self.rsvp is None
        &&& self.sent_by is None
        &&& self.tz_id is None
        &&& self.value_type is None
    }

    /// A value without parameters.
    pub fn new(value: T) -> (p: IcalParam<T>)
        ensures
            p.no_parameters(),
            p.value == value,
    {
        Self {
            alt_rep: None,
            cn: None,
            cut_ype: None,
            del_from: None,
            del_to: None,
            dir: None,
            encoding: None,
            fmt_type: None,
            fb_type: None,
            language: None,
            member: None,
            part_stat: None,
            range: None,
            trig_rel: None,
            rel_type: None,
            role: None,
            rsvp: None,
            sent_by: None,
            tz_id: None,
            value_type: None,
            value: value,
        }
    }
}

impl<T: Default> Default for IcalParam<T> {
    /// The default value of `T` without parameters: [`IcalParam::new`]
    /// applied to `T::default()`.
    fn default() -> (p: Self)
        ensures
            p.no_parameters(),
            call_ensures(T::default, (), p.value),
    {
        IcalParam::new(T::default())
    }
}

impl IcalParam<String> {
    /// The parameters and value as written after the property name:
    /// `;PARTSTAT=..` when set, `;FMTTYPE=..` when set, then `:` and the value.
    pub open spec fn text(self) -> Seq<char> {
        (match self.part_stat {
            Some(ps) => ";PARTSTAT="@ + ps.text(),
            None => Seq::empty(),
        }) + (match self.fmt_type {
            Some(ft) => ";FMTTYPE="@ + ft@,
            None => Seq::empty(),
        }) + ":"@ + self.value@
    }

    /// The parameters and value as written after the property name.
    pub fn to_string(&self) -> (s: String)
        ensures
            s@ == self.text(),
    {
        let mut s = String::new();
        if let Some(part_stat) = &self.part_stat {
            s.append(";PARTSTAT=");
            s.append(part_stat.as_str());
        }
        if let Some(fmt_type) = &self.fmt_type {
            s.append(";FMTTYPE=");
            s.append(fmt_type.as_str());
        }
        s.append(":");
        s.append(self.value.as_str());
        assert(s@ =~= self.text());
        s
    }
}

} // verus!
