use zephyr::caldav;
use zephyr::entity::{CalendarModel, UserModel};
use zephyr::endpoints::webdav::principals as api_principals;
use zephyr::http::{BAD_REQUEST, FORBIDDEN, INTERNAL_SERVER_ERROR, NOT_FOUND, OK};
use zephyr::logic::error::{ApiError, WithStatusCode};
use zephyr::logic::response::{
    CalendarProperty, MultiStatusResponse, NameOnlyProperty, PropStat, Property, ResourceType,
    Response, RootProperty, UserProperty, WebDavPermissions,
};
use zephyr::serialization::xml::{SerializeXml, XmlWriter};
use zephyr::time::UtcTime;
use zephyr::util::{status_error, EndpointError};
use zephyr::webdav;

/// The instant chrono reads from `s`, as the library holds it.
fn parse_utc(s: &str) -> Option<UtcTime> {
    let t: chrono::DateTime<chrono::Utc> = std::str::FromStr::from_str(s).ok()?;
    UtcTime::from_timestamp_secs(t.timestamp())
}

fn text(bytes: Vec<u8>) -> String {
    String::from_utf8(bytes).unwrap()
}

#[test]
fn caldav_serialize_mutli_status_response() {
    let expected = "<?xml version=\"1.0\" encoding=\"utf-8\"?>
<d:multistatus xmlns:d=\"DAV:\" xmlns:cal=\"urn:ietf:params:xml:ns:caldav\">
    <d:response>
        <d:href>/caldav/</d:href>
        <d:propstat>
            <d:prop>
                <d:resourcetype>
                    <d:collection/>
                </d:resourcetype>
                <d:displayname>CalDAV</d:displayname>
                <d:getlastmodified>Sun, 2 Nov 2025 14:30:00 +0000</d:getlastmodified>
                <d:creationdate>2025-11-01T10:00:00Z</d:creationdate>
                <d:current-user-principal>
                    <d:href>/caldav/principals/user123/</d:href>
                </d:current-user-principal>
            </d:prop>
            <d:status>HTTP/1.1 200 OK</d:status>
        </d:propstat>
    </d:response>
</d:multistatus>";

    let body = caldav::MultiStatusResponse {
        responses: vec![caldav::Response {
            href: "/caldav/".into(),
            properties: vec![caldav::PropStat {
                status_code: OK,
                prop: caldav::Property {
                    resource_type: caldav::ResourceType::Collection,
                    display_name: "CalDAV".into(),
                    created_at: parse_utc("2025-11-01 10:00:00Z").unwrap(),
                    last_modified: parse_utc("2025-11-02 14:30:00Z").unwrap(),
                    current_user_principal: "/caldav/principals/user123/".into(),
                },
            }],
        }],
    };

    let mut writer = XmlWriter::new_with_indent();
    body.write_xml(&mut writer);
    let bytes: &[u8] = &writer.into_bytes().unwrap();
    let result = std::str::from_utf8(bytes).unwrap();

    assert_eq!(result, expected);
}

#[test]
fn serialize_mutli_status_response() {
    let expected = "<?xml version=\"1.0\" encoding=\"utf-8\"?>
<d:multistatus xmlns:d=\"DAV:\" xmlns:cal=\"urn:ietf:params:xml:ns:caldav\">
    <d:response>
        <d:href>/caldav/</d:href>
        <d:propstat>
            <d:prop>
                <d:resourcetype>
                    <d:collection/>
                </d:resourcetype>
                <d:displayname>CalDAV</d:displayname>
                <d:getlastmodified>Sun, 2 Nov 2025 14:30:00 +0000</d:getlastmodified>
                <d:creationdate>2025-11-01T10:00:00Z</d:creationdate>
                <d:current-user-principal>
                    <d:href>/caldav/principals/user123/</d:href>
                </d:current-user-principal>
                <d:current-user-privilege-set>
                    <d:privilege>
                        <d:read/>
                    </d:privilege>
                    <d:privilege>
                        <d:write/>
                    </d:privilege>
                    <d:privilege>
                        <d:write-content/>
                    </d:privilege>
                </d:current-user-privilege-set>
            </d:prop>
            <d:status>HTTP/1.1 200 OK</d:status>
        </d:propstat>
    </d:response>
</d:multistatus>";

    let body = MultiStatusResponse {
        responses: vec![Response {
            href: "/caldav/".into(),
            properties: vec![PropStat {
                status_code: OK,
                prop: Property::Root(RootProperty {
                    resource_type: ResourceType::Collection,
                    display_name: "CalDAV".into(),
                    created_at: parse_utc("2025-11-01 10:00:00Z").expect("Could not parse date"),
                    last_modified: parse_utc("2025-11-02 14:30:00Z").expect("Could not parse date"),
                    current_user_principal: "/caldav/principals/user123/".into(),
                    ctag: "AAA".into(),
                    permissions: WebDavPermissions {
                        read: true,
                        write: true,
                        write_content: true,
                    },
                }),
            }],
        }],
    };

    let mut writer = XmlWriter::new_with_indent();
    body.write_xml(&mut writer);
    let bytes: &[u8] = &writer.into_bytes().expect("Could not serialize body");
    let result = std::str::from_utf8(bytes).expect("Could not parse body");

    assert_eq!(result, expected);
}

fn user() -> UserModel {
    UserModel {
        id: 1,
        email: "jane@example.com".into(),
        password: String::new(),
        first_name: "Jane".into(),
        last_name: "Doe".into(),
        affix: None,
        display_name: "Jane & co".into(),
    }
}

#[test]
fn rest_documents_carry_two_namespaces_and_escape_text() {
    let body = MultiStatusResponse {
        responses: vec![Response {
            href: "/caldav/".into(),
            properties: vec![PropStat {
                status_code: OK,
                prop: Property::NameOnly(NameOnlyProperty {
                    resource_type: ResourceType::Calendar,
                    display_name: "a<b".into(),
                }),
            }],
        }],
    };
    let mut writer = XmlWriter::new();
    body.write_xml(&mut writer);
    assert_eq!(
        text(writer.into_bytes().unwrap()),
        "<?xml version=\"1.0\" encoding=\"utf-8\"?><d:multistatus xmlns:d=\"DAV:\" xmlns:cal=\"urn:ietf:params:xml:ns:caldav\"><d:response><d:href>/caldav/</d:href><d:propstat><d:prop><d:resourcetype><cal:calendar/></d:resourcetype><d:displayname>a&lt;b</d:displayname></d:prop><d:status>HTTP/1.1 200 OK</d:status></d:propstat></d:response></d:multistatus>"
    );
}

#[test]
fn calendar_and_user_properties() {
    let mut writer = XmlWriter::new();
    CalendarProperty { display_name: "Work".into(), description: "".into() }.write_xml(&mut writer);
    UserProperty {
        display_name: "J".into(),
        calendar_home_set: "/h".into(),
        principal: "/p".into(),
        current_user_principal: "/c".into(),
    }
    .write_xml(&mut writer);
    WebDavPermissions { read: true, write: false, write_content: false }.write_xml(&mut writer);
    assert_eq!(
        text(writer.into_bytes().unwrap()),
        "<?xml version=\"1.0\" encoding=\"utf-8\"?><d:prop><d:resourcetype><d:collection/><cal:calendar/></d:resourcetype><d:displayname>Work</d:displayname><cal:calendar-description></cal:calendar-description><cal:supported-calendar-component-set><cal:comp name=\"VEVENT\"/></cal:supported-calendar-component-set></d:prop><d:prop><d:displayname>J</d:displayname><cal:calendar-home-set><d:href>/h</d:href></cal:calendar-home-set><d:principal-URL><d:href>/p</d:href></d:principal-URL><d:current-user-principal><d:href>/c</d:href></d:current-user-principal></d:prop><d:current-user-privilege-set><d:privilege><d:read/></d:privilege></d:current-user-privilege-set>"
    );
}

#[test]
fn root_propfind_answers() {
    match webdav::caldav::handle_propfind(None, 1) {
        Err(EndpointError::StatusCode(c)) => assert_eq!(c, FORBIDDEN),
        other => panic!("{other:?}"),
    }
    match webdav::caldav::handle_propfind(Some(b"-1"), 1) {
        Err(EndpointError::StatusCode(c)) => assert_eq!(c, BAD_REQUEST),
        other => panic!("{other:?}"),
    }
    match webdav::caldav::handle_propfind(Some(b"x"), 1) {
        Err(e) => assert_eq!(e.status_code(), INTERNAL_SERVER_ERROR),
        other => panic!("{other:?}"),
    }
    let doc = text(webdav::caldav::handle_propfind(Some(b"0"), 1).unwrap());
    assert!(doc.contains("<d:href>/caldav/principals/users/00000000-0000-0000-0000-000000000001/</d:href>"));
    assert!(doc.contains("<d:getlastmodified>Sat, 1 Nov 2025 10:00:00 +0000</d:getlastmodified>"));
    assert!(doc.contains("<d:creationdate>2025-11-02T14:30:00Z</d:creationdate>"));
    assert!(doc.starts_with("<?xml version=\"1.0\" encoding=\"utf-8\"?><d:multistatus xmlns:d=\"DAV:\" xmlns:cal=\"urn:ietf:params:xml:ns:caldav\">"));
}

#[test]
fn principal_propfind_answers() {
    assert!(matches!(webdav::principals::user_id_from_path(None), Err(EndpointError::StatusCode(404))));
    assert!(matches!(webdav::principals::user_id_from_path(Some("zzz")), Err(EndpointError::StatusCode(400))));
    assert_eq!(
        webdav::principals::user_id_from_path(Some("00000000-0000-0000-0000-000000000001")).unwrap(),
        1
    );
    assert!(matches!(webdav::principals::handle_propfind(None, Some(b"0")), Err(EndpointError::StatusCode(404))));
    let u = user();
    let doc = text(webdav::principals::handle_propfind(Some(&u), Some(b"1")).unwrap());
    assert_eq!(
        doc,
        "<?xml version=\"1.0\" encoding=\"utf-8\"?><d:multistatus xmlns:d=\"DAV:\" xmlns:cal=\"urn:ietf:params:xml:ns:caldav\"><d:response><d:href>/caldav/</d:href><d:propstat><d:prop><d:displayname>Jane &amp; co</d:displayname><cal:calendar-home-set><d:href>/caldav/users/00000000-0000-0000-0000-000000000001</d:href></cal:calendar-home-set><d:principal-URL><d:href>/caldav/principals/users/00000000-0000-0000-0000-000000000001</d:href></d:principal-URL><d:current-user-principal><d:href>/caldav/principals/users/00000000-0000-0000-0000-000000000001</d:href></d:current-user-principal></d:prop><d:status>HTTP/1.1 200 OK</d:status></d:propstat></d:response></d:multistatus>"
    );
}

#[test]
fn user_collection_lists_calendars_at_depth_one() {
    let u = user();
    let cals = vec![
        CalendarModel { id: 2, owner: 1, title: "Work".into(), colour: "#fff".into(), c_tag: 3 },
        CalendarModel { id: 4, owner: 9, title: "Secret".into(), colour: "#000".into(), c_tag: 5 },
        CalendarModel { id: 6, owner: 1, title: "Home".into(), colour: "#0f0".into(), c_tag: 7 },
    ];
    let shallow = text(webdav::users::handle_propfind(0, &u, 1, &cals).unwrap());
    assert!(!shallow.contains("Work"));
    let deep = text(webdav::users::handle_propfind(1, &u, 1, &cals).unwrap());
    assert!(deep.contains("<d:displayname>Work</d:displayname><cal:calendar-description></cal:calendar-description>"));
    assert!(deep.contains("<d:displayname>Home</d:displayname>"));
    assert!(deep.find("Work").unwrap() < deep.find("Home").unwrap());
    // Calendars of another user are never listed.
    assert!(!deep.contains("Secret"));
    assert!(deep.contains("<d:displayname>Jane &amp; co</d:displayname>"));
    assert!(matches!(webdav::users::handle_propfind(-1, &u, 1, &cals), Err(EndpointError::StatusCode(400))));
    assert!(webdav::users::wants_calendars(1));
    assert!(!webdav::users::wants_calendars(0));
}

#[test]
fn api_principal_errors_carry_messages() {
    let e = api_principals::user_id_from_path(None).unwrap_err();
    assert_eq!((e.report.as_str(), e.status_code), ("Coult not find user", NOT_FOUND));
    let e = api_principals::user_id_from_path(Some("zzz")).unwrap_err();
    assert_eq!(e.status_code, BAD_REQUEST);
    let e = api_principals::handle_propfind(None, None).unwrap_err();
    assert_eq!((e.report.as_str(), e.status_code), ("Could not find user", NOT_FOUND));
    let u = user();
    let e = api_principals::handle_propfind(Some(&u), None).unwrap_err();
    assert_eq!((e.report.as_str(), e.status_code), ("Invalid `Depth` header", FORBIDDEN));
    let e = api_principals::handle_propfind(Some(&u), Some(b"-3")).unwrap_err();
    assert_eq!((e.report.as_str(), e.status_code), ("Invalid `Depth` header", BAD_REQUEST));
    let e = api_principals::handle_propfind(Some(&u), Some(b"abc")).unwrap_err();
    assert_eq!((e.report.as_str(), e.status_code), ("invalid digit found in string", INTERNAL_SERVER_ERROR));
    let e = api_principals::handle_propfind(Some(&u), Some(b"\x01")).unwrap_err();
    assert_eq!((e.report.as_str(), e.status_code), ("failed to convert header to a str", INTERNAL_SERVER_ERROR));
    let doc = text(api_principals::handle_propfind(Some(&u), Some(b"0")).unwrap());
    assert!(doc.contains("<d:multistatus xmlns:d=\"DAV:\" xmlns:cal=\"urn:ietf:params:xml:ns:caldav\">"));
}

#[test]
fn old_root_propfind_document() {
    let doc = text(caldav::handle_propfind().unwrap());
    assert!(doc.contains("<d:href>/caldav/principals/user123/</d:href>"));
    assert!(caldav::is_authorized(Some(b"Authorized")));
    assert!(!caldav::is_authorized(Some(b"authorized")));
    assert!(!caldav::is_authorized(None));
}

#[test]
fn error_status_codes() {
    assert_eq!(status_error(418).status_code(), 418);
    assert_eq!(EndpointError::InvalidLength.status_code(), 400);
    assert_eq!(EndpointError::ToStrError.status_code(), 500);
    assert_eq!(EndpointError::Report("x".into()).status_code(), 500);
    let e = ApiError::new("nope", 404);
    assert_eq!(e.to_string(), "[404] nope");
    assert_eq!(e.error_response(), (404, String::from("nope")));
    assert_eq!(ApiError::from_report("boom".into()).status_code(), 500);
    let r: Result<u8, ApiError> = Err::<u8, String>(String::from("bad")).with_status(400);
    let e = r.unwrap_err();
    assert_eq!((e.report.as_str(), e.status_code), ("bad", 400));
    assert_eq!(Ok::<u8, String>(3).with_status(400).unwrap(), 3);
}

#[test]
fn endpoint_error_messages() {
    assert_eq!(status_error(404).to_string(), "404 Not Found");
    assert_eq!(status_error(418).to_string(), "418 I'm a teapot");
    assert_eq!(status_error(42).to_string(), "42");
    assert_eq!(EndpointError::InvalidLength.to_string(), "Invalid Length");
    assert_eq!(EndpointError::ToStrError.to_string(), "failed to convert header to a str");
    assert_eq!(EndpointError::Report("r".into()).to_string(), "r");
    assert_eq!(EndpointError::DatabaseError("db".into()).to_string(), "db");
    assert_eq!(
        EndpointError::ParseIntError(zephyr::http::IntErrorKind::Empty).to_string(),
        "cannot parse integer from empty string"
    );
}
