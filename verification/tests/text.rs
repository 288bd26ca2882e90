use std::str::FromStr;

use chrono::Datelike;
use zephyr::time::{RFC2822_MAX_TIMESTAMP, RFC2822_MIN_TIMESTAMP};

use zephyr::http::{
    header_text, parse_i32, read_depth, status_text, DepthError, IntErrorKind,
};
use zephyr::text::{append_int_decimal, u64_decimal};
use zephyr::controller::calendars::{create_calendar_for_user, CalendarData};
use zephyr::endpoints::webdav::principals::user_id_from_path as api_user_id_from_path;
use zephyr::entity::UserModel;
use zephyr::icalendar::to_icalendar_timestamp;
use zephyr::logic::response::{creation_date_text, ResourceType, RootProperty, WebDavPermissions};
use zephyr::serialization::xml::{SerializeXml, XmlWriter};
use zephyr::time::{UtcTime, MAX_TIMESTAMP, MIN_TIMESTAMP};
use zephyr::webdav::principals::{self, user_id_from_path};

#[test]
fn decimal_rendering_matches_std() {
    for v in [0u64, 7, 10, 99, 100, 12345, u64::MAX] {
        assert_eq!(u64_decimal(v), v.to_string());
    }
    for v in [0i64, -1, -10, 42, i64::MIN, i64::MAX] {
        let mut s = String::new();
        append_int_decimal(&mut s, v);
        assert_eq!(s, v.to_string());
    }
}

#[test]
fn integer_parsing_matches_std() {
    let cases = [
        "", "+", "-", "0", "1", "-1", "+5", "007", "2147483647", "2147483648", "-2147483648",
        "-2147483649", "99999999999x", "12a", "a", " 1", "1 ", "--1", "+-1", "infinity",
    ];
    for c in cases {
        let ours = parse_i32(c.as_bytes());
        let std = c.parse::<i32>();
        match (ours, std) {
            (Ok(a), Ok(b)) => assert_eq!(a, b, "{c}"),
            (Err(k), Err(e)) => assert_eq!(k.to_string(), e.to_string(), "{c}"),
            (a, b) => panic!("{c}: {a:?} vs {b:?}"),
        }
    }
    assert_eq!(parse_i32(b"99999999999x"), Err(IntErrorKind::PosOverflow));
    assert_eq!(parse_i32(b"-99999999999x"), Err(IntErrorKind::NegOverflow));
}

#[test]
fn header_text_accepts_visible_ascii_and_tabs() {
    assert_eq!(header_text(b"abc\tdef").unwrap(), "abc\tdef");
    assert!(header_text(b"caf\xc3\xa9").is_none());
    assert!(header_text(b"a\nb").is_none());
    assert_eq!(header_text(b"").unwrap(), "");
}

#[test]
fn depth_header_reading() {
    assert_eq!(read_depth(None), Err(DepthError::Missing));
    assert_eq!(read_depth(Some(b"1")), Ok(1));
    assert_eq!(read_depth(Some(b"-1")), Ok(-1));
    assert_eq!(read_depth(Some(b"infinity")), Err(DepthError::NotNumber(IntErrorKind::InvalidDigit)));
    assert_eq!(read_depth(Some(b"\xff")), Err(DepthError::NotText));
    assert_eq!(read_depth(Some(b"")), Err(DepthError::NotNumber(IntErrorKind::Empty)));
}

#[test]
fn status_texts() {
    assert_eq!(status_text(200), "200 OK");
    assert_eq!(status_text(404), "404 Not Found");
    assert_eq!(status_text(599), "599 <unknown status code>");
}

#[test]
fn timestamps_cover_chrono_range() {
    for s in [MIN_TIMESTAMP - 1, MIN_TIMESTAMP, 0, MAX_TIMESTAMP, MAX_TIMESTAMP + 1, i64::MIN, i64::MAX] {
        assert_eq!(
            UtcTime::from_timestamp_secs(s).is_some(),
            chrono::DateTime::from_timestamp_secs(s).is_some(),
            "{s}"
        );
    }
    assert_eq!(UtcTime::from_timestamp_secs(5).unwrap().timestamp(), 5);
}

/// The `d:getlastmodified` text of a root collection modified at `t`.
fn last_modified_text(t: UtcTime) -> String {
    let prop = RootProperty {
        resource_type: ResourceType::Collection,
        display_name: "CalDAV".into(),
        last_modified: t,
        created_at: t,
        current_user_principal: "/".into(),
        permissions: WebDavPermissions { read: false, write: false, write_content: false },
        ctag: "AAA".into(),
    };
    let mut writer = XmlWriter::new();
    prop.write_xml(&mut writer);
    let doc = String::from_utf8(writer.into_bytes().unwrap()).unwrap();
    let start = doc.find("<d:getlastmodified>").unwrap() + "<d:getlastmodified>".len();
    let end = doc.find("</d:getlastmodified>").unwrap();
    doc[start..end].to_string()
}

#[test]
fn rfc2822_range_is_years_zero_to_9999() {
    let y = |s: i64| chrono::DateTime::from_timestamp_secs(s).unwrap().year();
    assert_eq!(y(RFC2822_MIN_TIMESTAMP), 0);
    assert_eq!(y(RFC2822_MIN_TIMESTAMP - 1), -1);
    assert_eq!(y(RFC2822_MAX_TIMESTAMP), 9999);
    assert_eq!(y(RFC2822_MAX_TIMESTAMP + 1), 10000);
    let t = UtcTime::from_timestamp_secs(RFC2822_MIN_TIMESTAMP).unwrap();
    assert_eq!(last_modified_text(t), "Sat, 1 Jan 0000 00:00:00 +0000");
}

#[test]
fn time_texts() {
    let t = UtcTime::from_timestamp_secs(1762093800).unwrap();
    assert_eq!(to_icalendar_timestamp(t), "20251102T143000Z");
    assert_eq!(creation_date_text(t), "2025-11-02T14:30:00Z");
    assert_eq!(last_modified_text(t), "Sun, 2 Nov 2025 14:30:00 +0000");
    let far = UtcTime::from_timestamp_secs(MAX_TIMESTAMP).unwrap();
    assert_eq!(to_icalendar_timestamp(far), "+2621421231T235959Z");
}

#[test]
fn uuid_texts() {
    let text = "5aa5c392-fd79-4d24-adc9-8349c49b0b71";
    let v = user_id_from_path(Some(text)).unwrap();
    assert_eq!(v, uuid::Uuid::from_str(text).unwrap().as_u128());
    let e = api_user_id_from_path(Some("nope")).unwrap_err();
    assert_eq!(e.report, uuid::Uuid::from_str("nope").unwrap_err().to_string());
    assert_eq!(e.status_code, 400);
    let calendar = create_calendar_for_user(v, CalendarData { title: "T".into(), colour: "#fff".into() });
    assert_eq!(uuid::Uuid::from_u128(calendar.id).get_version_num(), 4);
    assert_eq!(uuid::Uuid::from_u128(calendar.c_tag).get_version_num(), 4);
    let user = UserModel {
        id: 1,
        email: "a@b".into(),
        password: String::new(),
        first_name: "A".into(),
        last_name: "B".into(),
        affix: None,
        display_name: "A".into(),
    };
    let doc = String::from_utf8(principals::handle_propfind(Some(&user), Some(b"0")).unwrap()).unwrap();
    assert!(doc.contains("<d:href>/caldav/users/00000000-0000-0000-0000-000000000001</d:href>"));
}
