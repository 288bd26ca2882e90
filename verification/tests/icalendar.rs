use zephyr::ical_object;
use zephyr::icalendar::alarm::{Alarm, AudioAlarm, DisplayAlarm, EmailAlarm};
use zephyr::icalendar::event::{Event, EventStatus};
use zephyr::icalendar::parameter::{IcalParam, PartStat};
use zephyr::icalendar::todo::{Todo, TodoStatus};
use zephyr::icalendar::{
    folds_on_char_boundaries, if_some_write, if_some_write_date, if_some_write_param,
    optional_line_can_fold, wrap_icalendar_line,
};
use zephyr::time::UtcTime;

/// The 128-bit value of a UUID written in text.
fn parse_uid(s: &str) -> Result<u128, uuid::Error> {
    std::str::FromStr::from_str(s).map(|u: uuid::Uuid| u.as_u128())
}

fn at(secs: i64) -> UtcTime {
    UtcTime::from_timestamp_secs(secs).unwrap()
}

#[test]
fn serialize_event() {
    let event = ical_object::Event {
        uid: parse_uid("5aa5c392-fd79-4d24-adc9-8349c49b0b71").unwrap(),
        timestamp: at(836481600),
        start: at(843057000),
        end: at(843256800),
        status: ical_object::EventStatus::Confirmed,
        catagory: "CONFERENCE".into(),
        organizer: "mailto:jsmith@example.com".into(),
        summery: "Networld+Interop Conference".into(),
    };

    let expected_result = "BEGIN:VEVENT\r\n\
    DTSTAMP:19960704T120000Z\r\n\
    UID:5aa5c392-fd79-4d24-adc9-8349c49b0b71\r\n\
    ORGANIZER:mailto:jsmith@example.com\r\n\
    DTSTART:19960918T143000Z\r\n\
    DTEND:19960920T220000Z\r\n\
    STATUS:CONFIRMED\r\n\
    CATEGORIES:CONFERENCE\r\n\
    SUMMARY:Networld+Interop Conference\r\n\
    END:VEVENT";

    assert_eq!(event.to_string(), expected_result);
}

#[test]
fn serialize_full_event() {
    let event = Event {
        uid: parse_uid("5aa5c392-fd79-4d24-adc9-8349c49b0b71").unwrap(),
        timestamp: at(836481600),
        start: Some(at(843057000)),
        end: Some(at(843256800)),
        status: Some(EventStatus::Confirmed),
        catagory: Some("CONFERENCE".into()),
        organizer: Some("mailto:jsmith@example.com".into()),
        summary: Some("Networld+Interop Conference".into()),
        ..Default::default()
    };

    let expected_result = "BEGIN:VEVENT\r\n\
    DTSTAMP:19960704T120000Z\r\n\
    UID:5aa5c392-fd79-4d24-adc9-8349c49b0b71\r\n\
    ORGANIZER:mailto:jsmith@example.com\r\n\
    DTSTART:19960918T143000Z\r\n\
    DTEND:19960920T220000Z\r\n\
    STATUS:CONFIRMED\r\n\
    CATEGORIES:CONFERENCE\r\n\
    SUMMARY:Networld+Interop Conference\r\n\
    END:VEVENT";

    assert_eq!(event.to_string(), expected_result);
}

#[test]
fn serialize_minimal_event() {
    let event = Event {
        uid: parse_uid("014145f2-adf7-49c4-bd42-bf34074f596d").unwrap(),
        timestamp: at(836553600),
        ..Default::default()
    };

    let expected_result = "BEGIN:VEVENT\r\n\
    DTSTAMP:19960705T080000Z\r\n\
    UID:014145f2-adf7-49c4-bd42-bf34074f596d\r\n\
    END:VEVENT";

    assert_eq!(event.to_string(), expected_result);
}

#[test]
fn serialize_todo_with_alarm() {
    let todo = Todo {
        uid: parse_uid("3e5b9fe5-8c0f-46ff-930f-7b4f2afb0b38").unwrap(),
        timestamp: at(886167900),
        due: Some(at(892598400)),
        seq: Some(2),
        organizer: Some("mailto:unclesam@example.com".into()),
        status: Some(TodoStatus::NeedsAction),
        atendee: Some(IcalParam {
            value: "mailto:jqpublic@example.com".into(),
            part_stat: Some(PartStat::Accepted),
            ..Default::default()
        }),
        summary: Some("Submit Income Taxes".into()),
        alarm: Some(Alarm::Audio(AudioAlarm {
            trigger: at(891604800),
            duration: Some("PT1H".into()),
            repeat: Some(4),
            attach: Some(IcalParam {
                value: "http://example.com/pub/audio-files/ssbanner.aud".into(),
                fmt_type: Some("audio/basic".into()),
                ..Default::default()
            }),
        })),
        ..Default::default()
    };

    let expected_result = "BEGIN:VTODO\r\n\
    UID:3e5b9fe5-8c0f-46ff-930f-7b4f2afb0b38\r\n\
    DTSTAMP:19980130T134500Z\r\n\
    SEQUENCE:2\r\n\
    ORGANIZER:mailto:unclesam@example.com\r\n\
    ATTENDEE;PARTSTAT=ACCEPTED:mailto:jqpublic@example.com\r\n\
    DUE:19980415T000000Z\r\n\
    STATUS:NEEDS-ACTION\r\n\
    SUMMARY:Submit Income Taxes\r\n\
    BEGIN:VALARM\r\n\
    ACTION:AUDIO\r\n\
    TRIGGER:19980403T120000Z\r\n\
    ATTACH;FMTTYPE=audio/basic:http://example.com/pub/audio-files/ssbanner.aud\r\n\
    REPEAT:4\r\n\
    DURATION:PT1H\r\n\
    END:VALARM\r\n\
    END:VTODO";

    assert_eq!(todo.to_string(), expected_result);
}

#[test]
fn wrap_short_line_is_unchanged() {
    assert_eq!(wrap_icalendar_line("SUMMARY:short", 75), "SUMMARY:short");
    assert_eq!(wrap_icalendar_line("", 75), "");
}

#[test]
fn wrap_long_line_folds_every_width_bytes() {
    let line = "a".repeat(160);
    let wrapped = wrap_icalendar_line(&line, 75);
    let expected = format!("{}\r\n {}\r\n {}", "a".repeat(75), "a".repeat(74), "a".repeat(11));
    assert_eq!(wrapped, expected);
    // Every line, the leading space of a continuation included, is at most 75 octets.
    assert!(wrapped.split("\r\n").all(|l| l.len() <= 75));
    assert_eq!(wrap_icalendar_line("abcdef", 3), "abc\r\n de\r\n f");
    assert_eq!(wrap_icalendar_line("abcdefg", 3), "abc\r\n de\r\n fg");
    assert_eq!(wrap_icalendar_line("abc", 1), "a\r\n b\r\n c");
}

#[test]
fn wrap_counts_bytes_of_multibyte_characters() {
    // "é" is two bytes: with a width of 3 the pieces hold 3, then 2 bytes.
    assert_eq!(wrap_icalendar_line("aéé", 3), "aé\r\n é");
    assert_eq!(wrap_icalendar_line("aéb", 3), "aé\r\n b");
}

#[test]
fn optional_lines_are_written_only_when_present() {
    let mut f = String::new();
    if_some_write(&mut f, "SUMMARY", None);
    assert_eq!(f, "");
    if_some_write(&mut f, "SUMMARY", Some("Lunch"));
    assert_eq!(f, "SUMMARY:Lunch\r\n");
    let long = "x".repeat(80);
    let mut g = String::new();
    if_some_write(&mut g, "DESCRIPTION", Some(&long));
    let line = format!("DESCRIPTION:{}", long);
    assert_eq!(g, format!("{}\r\n {}\r\n", &line[..75], &line[75..]));
}

#[test]
fn optional_param_and_date_lines() {
    let mut f = String::new();
    if_some_write_param(&mut f, "ATTENDEE", &None);
    assert_eq!(f, "");
    let p = IcalParam::new(String::from("mailto:a@example.com"));
    if_some_write_param(&mut f, "ATTENDEE", &Some(p));
    assert_eq!(f, "ATTENDEE:mailto:a@example.com\r\n");
    let mut g = String::new();
    if_some_write_date(&mut g, "DUE", Some(at(0)));
    if_some_write_date(&mut g, "DUE", None);
    assert_eq!(g, "DUE:19700101T000000Z\r\n");
    // A name need not be ASCII; the date-time always is.
    let mut h = String::new();
    if_some_write_date(&mut h, "X-FÄLLIG", Some(at(0)));
    assert_eq!(h, "X-FÄLLIG:19700101T000000Z\r\n");
}

#[test]
fn parameters_render_in_fixed_order() {
    let p = IcalParam {
        value: String::from("v"),
        part_stat: Some(PartStat::InProgress),
        fmt_type: Some(String::from("text/plain")),
        ..Default::default()
    };
    assert_eq!(p.to_string(), ";PARTSTAT=IN-PROCESS;FMTTYPE=text/plain:v");
    assert_eq!(IcalParam::new(String::from("x")).to_string(), ":x");
    assert_eq!(PartStat::Delagated.to_string(), "DELEGATED");
    assert_eq!(PartStat::InProgress.to_string(), "IN-PROCESS");
}

#[test]
fn statuses_render_their_names() {
    assert_eq!(EventStatus::Tentative.to_string(), "TENTATIVE");
    assert_eq!(EventStatus::Cancelled.to_string(), "CANCELLED");
    assert_eq!(TodoStatus::InProcess.to_string(), "IN-PROCESS");
    assert_eq!(TodoStatus::Delegated.to_string(), "DELEGATED");
    assert_eq!(ical_object::EventStatus::Tentative.to_string(), "TENTATIVE");
}

#[test]
fn display_alarm_writes_its_description() {
    let alarm = Alarm::Display(DisplayAlarm {
        trigger: at(0),
        description: "Breakfast meeting".into(),
        duration: None,
        repeat: None,
    });
    assert_eq!(
        alarm.to_string(),
        "BEGIN:VALARM\r\nACTION:DISPLAY\r\nTRIGGER:19700101T000000Z\r\nDESCRIPTION:Breakfast meeting\r\nEND:VALARM"
    );
    let repeated = Alarm::Display(DisplayAlarm {
        trigger: at(0),
        description: "Wake up".into(),
        duration: Some("PT5M".into()),
        repeat: Some(1),
    });
    assert_eq!(
        repeated.to_string(),
        "BEGIN:VALARM\r\nACTION:DISPLAY\r\nTRIGGER:19700101T000000Z\r\nDESCRIPTION:Wake up\r\nREPEAT:1\r\nDURATION:PT5M\r\nEND:VALARM"
    );
}

#[test]
fn email_alarm_writes_description_and_summary() {
    let alarm = Alarm::Email(EmailAlarm {
        trigger: at(0),
        description: "A draft agenda needs to be sent out".into(),
        summary: "*** REMINDER: SEND AGENDA FOR WEEKLY STAFF MEETING ***".into(),
        duration: None,
        repeat: None,
    });
    assert_eq!(
        alarm.to_string(),
        "BEGIN:VALARM\r\nACTION:EMAIL\r\nTRIGGER:19700101T000000Z\r\nDESCRIPTION:A draft agenda needs to be sent out\r\nSUMMARY:*** REMINDER: SEND AGENDA FOR WEEKLY STAFF MEETING ***\r\nEND:VALARM"
    );
}

#[test]
fn negative_sequence_number() {
    let todo = Todo {
        uid: 0,
        timestamp: at(0),
        seq: Some(-12),
        ..Default::default()
    };
    assert_eq!(
        todo.to_string(),
        "BEGIN:VTODO\r\nUID:00000000-0000-0000-0000-000000000000\r\nDTSTAMP:19700101T000000Z\r\nSEQUENCE:-12\r\nEND:VTODO"
    );
}

#[test]
fn event_body_streams_text_once_then_ends() {
    let mut event = Event {
        uid: 1,
        timestamp: at(0),
        ..Default::default()
    };
    let text = event.to_string();
    assert_eq!(event.poll_frame(), Some(text.clone()));
    assert_eq!(event.poll_frame(), None);
    assert_eq!(event.poll_frame(), Some(text));
}

#[test]
fn calendar_object_body_alternates() {
    let obj = ical_object::ICalendarObject {
        alt_rep: String::new(),
        cn: String::new(),
        cu_type: ical_object::ICalendarUserType::Individual,
        del_from: String::new(),
        del_to: String::new(),
        dir: String::new(),
        encoding: ical_object::ICalendarEncodingType::EightBit,
        fmt_type: String::new(),
        fb_type: ical_object::ICalendarFreeBusyType::Free,
        language: String::new(),
        member: String::new(),
        part_stat: String::new(),
        range: 0,
        trig_rel: 0,
        rel_type: 0,
        role: 0,
        rsvp: false,
        sent_by_: 0,
        tzid: 0,
        value_type: 0,
        other: 0,
    };
    let (done, frame) = obj.poll_frame(false);
    assert!(done);
    assert_eq!(
        frame.unwrap(),
        "BEGIN:VCALENDAR\r\nVERSION:2.0\r\nPRODID:-//Zephyr//NONSGML v1.0//EN\r\nEND:VCALENDAR\r\n"
    );
    let (done, frame) = obj.poll_frame(true);
    assert!(!done);
    assert!(frame.is_none());
}

#[test]
fn default_event_has_random_v4_uid() {
    let e = Event::default();
    assert_eq!((e.uid >> 76) & 0xf, 4);
    assert_eq!((e.uid >> 62) & 0x3, 2);
    assert!(e.summary.is_none());
}

#[test]
fn fold_check_finds_cuts_inside_characters() {
    assert!(folds_on_char_boundaries("abcdef", 2));
    // "aé": the byte at index 2 continues the two-byte 'é'.
    assert!(!folds_on_char_boundaries("aéb", 2));
    // Width 2 cuts at 2, then every byte: index 3 continues the second 'é'.
    assert!(!folds_on_char_boundaries("éé", 2));
    assert!(folds_on_char_boundaries("aéé", 3));
    assert!(folds_on_char_boundaries("", 3));
}

#[test]
fn optional_line_fold_check() {
    assert!(optional_line_can_fold("SUMMARY", None));
    assert!(optional_line_can_fold("SUMMARY", Some("short")));
    // "SUMMARY:" is 8 bytes; 66 ASCII bytes and then 'é' put its second byte at index 75.
    let long = format!("{}é", "x".repeat(66));
    assert!(!optional_line_can_fold("SUMMARY", Some(&long)));
    let aligned = format!("{}é", "x".repeat(67));
    assert!(optional_line_can_fold("SUMMARY", Some(&aligned)));
}

#[test]
fn event_fold_check_covers_free_text_lines() {
    let mut event = Event {
        uid: parse_uid("014145f2-adf7-49c4-bd42-bf34074f596d").unwrap(),
        timestamp: at(836553600),
        summary: Some("Annual Employee Review".into()),
        ..Default::default()
    };
    assert!(event.can_fold_lines());
    event.organizer = Some(format!("{}é", "x".repeat(64)));
    // "ORGANIZER:" is 10 bytes, so 'é' starts at byte 74 and index 75 continues it.
    assert!(!event.can_fold_lines());
}

#[test]
fn todo_fold_check_covers_attendee_and_alarm() {
    let mut todo = Todo {
        uid: parse_uid("3e5b9fe5-8c0f-46ff-930f-7b4f2afb0b38").unwrap(),
        timestamp: at(886167900),
        summary: Some("Submit Income Taxes".into()),
        ..Default::default()
    };
    assert!(todo.can_fold_lines());
    // "ATTENDEE:" is 9 bytes; 65 more put 'é' across index 75.
    todo.atendee = Some(IcalParam {
        value: format!("{}é", "x".repeat(65)),
        ..Default::default()
    });
    assert!(!todo.can_fold_lines());
    todo.atendee = None;
    let alarm = Alarm::Audio(AudioAlarm {
        trigger: at(891604800),
        duration: Some(format!("{}é", "x".repeat(65))),
        repeat: None,
        attach: None,
    });
    // "DURATION:" is 9 bytes as well.
    assert!(!alarm.can_fold_lines());
    todo.alarm = Some(alarm);
    assert!(!todo.can_fold_lines());
    let display = Alarm::Display(DisplayAlarm {
        trigger: at(891604800),
        description: format!("{}é", "x".repeat(80)),
        duration: None,
        repeat: None,
    });
    assert!(display.can_fold_lines());
    // "DESCRIPTION:" is 12 bytes; 62 more put 'é' across index 75.
    let cut = Alarm::Display(DisplayAlarm {
        trigger: at(891604800),
        description: format!("{}é", "x".repeat(62)),
        duration: None,
        repeat: None,
    });
    assert!(!cut.can_fold_lines());
}
