//! A first iCalendar model: a calendar object streamed as a fixed document
//! and an event whose properties are all present.

use vstd::prelude::*;
use vstd::string::*;

use crate::icalendar::{ical_stamp, to_icalendar_timestamp};
use crate::time::UtcTime;
use crate::uid::{uid_hyphenated, uid_text};

verus! {

broadcast use vstd::seq::group_seq_axioms;

/// Calendar user type.
pub enum ICalendarUserType {
    Individual,
    Group,
    Resource,
    Room,
    Unknown,
}

/// Inline encoding.
pub enum ICalendarEncodingType {
    EightBit,
    BaseSixtyFour,
}

/// Free/busy time type.
pub enum ICalendarFreeBusyType {
    Free,
    Busy,
    BusyUnavailable,
    BusyAvailable,
}

/// The parameters of an iCalendar object.
pub struct ICalendarObject {
    // Alternate text representation
    pub alt_rep: String,
    // Common name
    pub cn: String,
    // Calendar user type
    pub cu_type: ICalendarUserType,
    // Delegator
    pub del_from: String,
    // Delegatee
    pub del_to: String,
    // Directory entry
    pub dir: String,
    // Inline encoding
    pub encoding: ICalendarEncodingType,
    // Format type
    pub fmt_type: String,
    // Free/busy time type
    pub fb_type: ICalendarFreeBusyType,
    // Language for text
    pub language: String,
    // Group or list membership
    pub member: String,
    // Participation status
    pub part_stat: String,
    // Recurrence identifier range
    pub range: u32,
    // Alarm trigger relationship
    pub trig_rel: u32,
    // Relationship type
    pub rel_type: u32,
    // Participation role
    pub role: u32,
    // RSVP expectation
    pub rsvp: bool,
    // Sent by
    pub sent_by_: u32,
    // Reference to time zone object
    pub tzid: u32,
    // Property value data type
    pub value_type: u32,
    pub other: u32,
}

/// The document every calendar object is streamed as.
pub open spec fn calendar_document() -> Seq<char> {
    "BEGIN:VCALENDAR\r\nVERSION:2.0\r\nPRODID:-//Zephyr//NONSGML v1.0//EN\r\nEND:VCALENDAR\r\n"@
}

impl ICalendarObject {
    /// One step of streaming a calendar object as a response body. `done`
    /// says whether the document was handed out since the body last ended;
    /// it is shared by every calendar object. Returns the next value of
    /// `done` and the frame: the document when `done` is false, the end of
    /// the body otherwise.
    pub fn poll_frame(&self, done: bool) -> (r: (bool, Option<String>))
        ensures
            r.0 == !done,
            done ==> r.1 is None,
            !done ==> (r.1 matches Some(s) && s@ == calendar_document()),
    {
        if done {
            (false, None)
        } else {
            let mut s = String::new();
            s.append(
                "BEGIN:VCALENDAR\r\nVERSION:2.0\r\nPRODID:-//Zephyr//NONSGML v1.0//EN\r\nEND:VCALENDAR\r\n",
            );
            assert(s@ =~= calendar_document());
            (true, Some(s))
        }
    }
}

/// Status of an event.
#[derive(Clone, Copy, Debug, PartialEq, Eq)]
pub enum EventStatus {
    Tentative,
    Confirmed,
    Cancelled,
}

impl EventStatus {
    /// The text of the status.
    pub open spec fn text(self) -> Seq<char> {
        match self {
            EventStatus::Tentative => "TENTATIVE"@,
            EventStatus::Confirmed => "CONFIRMED"@,
            EventStatus::Cancelled => "CANCELLED"@,
        }
    }

    /// The text of the status.
    pub fn to_string(&self) -> (s: String)
        ensures
            s@ == self.text(),
    {
        let mut s = String::new();
        match self {
            EventStatus::Tentative => s.append("TENTATIVE"),
            EventStatus::Confirmed => s.append("CONFIRMED"),
            EventStatus::Cancelled => s.append("CANCELLED"),
        }
        assert(s@ =~= self.text());
        s
    }
}

/// An event whose properties are all present.
pub struct Event {
    pub uid: u128,
    pub timestamp: UtcTime,
    pub start: UtcTime,
    pub end: UtcTime,
    pub status: EventStatus,
    pub catagory: String,
    pub organizer: String,
    pub summery: String,
}

impl Event {
    /// The iCalendar text of the event; lines are not folded.
    pub open spec fn text(self) -> Seq<char> {
        "BEGIN:VEVENT\r\nDTSTAMP:"@ + ical_stamp(self.timestamp) + "\r\nUID:"@ + uid_hyphenated(
            self.uid,
        ) + "\r\nORGANIZER:"@ + self.organizer@ + "\r\nDTSTART:"@ + ical_stamp(self.start)
            + "\r\nDTEND:"@ + ical_stamp(self.end) + "\r\nSTATUS:"@ + self.status.text()
            + "\r\nCATEGORIES:"@ + self.catagory@ + "\r\nSUMMARY:"@ + self.summery@
            + "\r\nEND:VEVENT"@
    }

    /// The iCalendar text of the event.
    pub fn to_string(&self) -> (s: String)
        ensures
            s@ == self.text(),
    {
        let mut s = String::new();
        s.append("BEGIN:VEVENT\r\nDTSTAMP:");
        s.append(to_icalendar_timestamp(self.timestamp).as_str());
        s.append("\r\nUID:");
        s.append(uid_text(self.uid).as_str());
        s.append("\r\nORGANIZER:");
        s.append(self.organizer.as_str());
        s.append("\r\nDTSTART:");
        s.append(to_icalendar_timestamp(self.start).as_str());
        s.append("\r\nDTEND:");
        s.append(to_icalendar_timestamp(self.end).as_str());
        s.append("\r\nSTATUS:");
        s.append(self.status.to_string().as_str());
        s.append("\r\nCATEGORIES:");
        s.append(self.catagory.as_str());
        s.append("\r\nSUMMARY:");
        s.append(self.summery.as_str());
        s.append("\r\nEND:VEVENT");
        assert(s@ =~= self.text());
        s
    }

    /// One step of streaming the event as a response body. `done` says
    /// whether the text was handed out since the body last ended; it is
    /// shared by every event of this kind. Returns the next value of `done`
    /// and the frame: the text when `done` is false, the end of the body
    /// otherwise.
    pub fn poll_frame(&self, done: bool) -> (r: (bool, Option<String>))
        ensures
            r.0 == !done,
            done ==> r.1 is None,
            !done ==> (r.1 matches Some(s) && s@ == self.text()),
    {
        let out = self.to_string();
        if done {
            (false, None)
        } else {
            (true, Some(out))
        }
    }
}

} // verus!
