use base64::prelude::BASE64_STANDARD;
use base64::Engine;
use hmac::{Hmac, Mac};
use jwt::VerifyWithKey;
use sha2::Sha256;
use std::collections::BTreeMap;

use zephyr::controller::calendars::{create_calendar_for_user, CalendarData};
use zephyr::controller::jwt::{get_jwt_signing_key, validate_credentials};
use zephyr::controller::users::{create_user_with_calendar, SignUpData};
use zephyr::endpoints::rest::auth::{login_decision, login_response, login_token, login_user};
use zephyr::endpoints::webdav::middleware::UserClaims;
use zephyr::entity::InstanceSettingModel;
use zephyr::webdav::middleware::{basic_credentials, credentials_outcome, AuthOutcome, CalDavAuth};

fn header(s: &str) -> Vec<u8> {
    format!("Basic {}", BASE64_STANDARD.encode(s)).into_bytes()
}

#[test]
fn basic_credentials_are_read() {
    let h = header("john.doe@example.com:very_secure_password");
    assert_eq!(
        basic_credentials(Some(&h)),
        Some(("john.doe@example.com".to_string(), "very_secure_password".to_string()))
    );
    let bare = BASE64_STANDARD.encode("a:b").into_bytes();
    assert_eq!(basic_credentials(Some(&bare)), Some(("a".to_string(), "b".to_string())));
    let three = header("a:b:c");
    assert_eq!(basic_credentials(Some(&three)), Some(("a".to_string(), "b".to_string())));
    let empty_password = header("a:");
    assert_eq!(basic_credentials(Some(&empty_password)), Some(("a".to_string(), String::new())));
    let unicode = header("jürgen:pässword");
    assert_eq!(basic_credentials(Some(&unicode)), Some(("jürgen".to_string(), "pässword".to_string())));
}

#[test]
fn malformed_credentials_are_refused() {
    assert_eq!(basic_credentials(None), None);
    let no_colon = header("nocolon");
    assert_eq!(basic_credentials(Some(&no_colon)), None);
    assert_eq!(basic_credentials(Some(b"Basic !!!")), None);
    let not_utf8 = format!("Basic {}", BASE64_STANDARD.encode([0xff, b':', b'a'])).into_bytes();
    assert_eq!(basic_credentials(Some(&not_utf8)), None);
    assert_eq!(basic_credentials(Some(b"Basic \x01")), None);
}

#[test]
fn credential_outcomes() {
    assert_eq!(credentials_outcome(&Ok(true)), AuthOutcome::Forward);
    assert_eq!(credentials_outcome(&Ok(false)), AuthOutcome::Unauthorized);
    assert_eq!(credentials_outcome(&Err("db".into())), AuthOutcome::AuthenticationError);
    assert_eq!(AuthOutcome::Unauthorized.status(), 401);
    assert_eq!(AuthOutcome::AuthenticationError.status(), 500);
    let m = CalDavAuth {}.new_transform(5u8);
    assert_eq!(m.service, 5);
    assert_eq!(UserClaims::new(9).user_id, 9);
}

#[test]
fn signed_up_user_can_log_in() {
    let data = SignUpData {
        email: "john.doe@example.com".into(),
        password: "very_secure_password".into(),
        first_name: "John".into(),
        affix: None,
        last_name: "Doe".into(),
        display_name: "John".into(),
    };
    let (user, calendar) = create_user_with_calendar(data).unwrap();
    assert_eq!(calendar.owner, user.id);
    assert_eq!(calendar.title, "John's calendar");
    assert_eq!(calendar.colour, "#63a6d7");
    assert_eq!(validate_credentials(Some(&user.password), "very_secure_password"), Ok(true));
    assert_eq!(validate_credentials(Some(&user.password), "wrong"), Ok(false));
    assert_eq!(validate_credentials(None, "very_secure_password"), Ok(false));
    assert!(validate_credentials(Some("not a hash"), "x").is_err());
}

#[test]
fn hashing_and_verification() {
    let data = SignUpData {
        email: "a@example.com".into(),
        password: "pw".into(),
        first_name: "A".into(),
        affix: Some("van".into()),
        last_name: "B".into(),
        display_name: "A".into(),
    };
    let (user, _) = create_user_with_calendar(data).unwrap();
    let h = user.password;
    assert!(h.starts_with("$argon2id$v=19$"));
    assert_ne!(h, "pw");
    assert_eq!(validate_credentials(Some(&h), "pw"), Ok(true));
    assert_eq!(validate_credentials(Some(&h), "pw2"), Ok(false));
    assert_eq!(user.affix.as_deref(), Some("van"));
}

#[test]
fn signing_keys() {
    let stored = InstanceSettingModel { key: "AUTH_JWT_SIGNING_KEY".into(), value: "k".into() };
    let (key, new) = get_jwt_signing_key(Some(&stored));
    assert_eq!(key, "k");
    assert!(new.is_none());
    let (key, new) = get_jwt_signing_key(None);
    assert_eq!(key.len(), 128);
    assert!(key.chars().all(|c| c.is_ascii_alphanumeric()));
    let setting = new.unwrap();
    assert_eq!(setting.key, "AUTH_JWT_SIGNING_KEY");
    assert_eq!(setting.value, key);
}

#[test]
fn login_tokens_name_the_user() {
    let token = login_token(1, "secret").unwrap();
    let key: Hmac<Sha256> = Hmac::new_from_slice(b"secret").unwrap();
    let claims: BTreeMap<String, String> = token.verify_with_key(&key).unwrap();
    assert_eq!(claims["sub"], "00000000-0000-0000-0000-000000000001");
}

#[test]
fn calendars_for_users() {
    let c = create_calendar_for_user(7, CalendarData { title: "T".into(), colour: "#000".into() });
    assert_eq!((c.owner, c.title.as_str(), c.colour.as_str()), (7, "T", "#000"));
    assert_ne!(c.id, c.c_tag);
}

#[test]
fn login_steps() {
    assert!(login_decision(Ok(true)).unwrap());
    assert!(!login_decision(Ok(false)).unwrap());
    let e = login_decision(Err("db down".into())).unwrap_err();
    assert_eq!((e.report.as_str(), e.status_code), ("Could not validate credentials: db down", 500));
    let e = login_user(None).unwrap_err();
    assert_eq!((e.report.as_str(), e.status_code), ("Could not find user", 404));
    let data = SignUpData {
        email: "x@example.com".into(),
        password: "pw".into(),
        first_name: "X".into(),
        affix: None,
        last_name: "Y".into(),
        display_name: "X".into(),
    };
    let (user, calendar) = create_user_with_calendar(data).unwrap();
    assert_eq!(uuid::Uuid::from_u128(calendar.id).get_version_num(), 4);
    assert_eq!(uuid::Uuid::from_u128(calendar.c_tag).get_version_num(), 4);
    let id = user.id;
    assert_eq!(login_user(Some(user)).unwrap().id, id);
}

#[test]
fn login_answers() {
    assert_eq!(login_response(Some("t.o.k".into())), (200, String::from("t.o.k")));
    assert_eq!(login_response(None), (401, String::new()));
}
