use argon2::password_hash::{PasswordHasher, SaltString};
use argon2::Argon2;
use ferrishare::admin::{
    admin_overview, overview_line, prepare_login, pretty_uploader, AdminView, LoginOutcome,
};
use ferrishare::auth::check_session;
use ferrishare::digest::{capability_text, digest_of, session_digest};
use ferrishare::{
    admin_login, admin_logout, admin_page, AdminLogin, AdminSession, Resource, StatusCode,
    Timestamp,
};

fn stored_hash(password: &str) -> String {
    let salt = SaltString::from_b64("c29tZXNhbHRzb21lc2FsdA").unwrap();
    Argon2::default().hash_password(password.as_bytes(), &salt).unwrap().to_string()
}

fn login(password: &str, long_login: bool) -> AdminLogin {
    AdminLogin {
        password: password.to_string(),
        long_login: if long_login { Some("on".to_string()) } else { None },
    }
}

fn now() -> Timestamp {
    Timestamp::new(1_700_000_000, 250_000_000)
}

fn record(hash: &str, filesize: u64, upload_ip: &str, expiry_ts: &str) -> Resource {
    Resource {
        efd_sha256sum: hash.to_string(),
        admin_key_sha256sum: "digest".to_string(),
        e_filename: vec![],
        iv_fd: vec![0; 12],
        iv_fn: vec![0; 12],
        filesize,
        upload_ip: upload_ip.to_string(),
        upload_ts: "2023-11-14T21:13:20+00:00".to_string(),
        expiry_ts: expiry_ts.to_string(),
        downloads: 5,
    }
}

#[test]
fn right_password_opens_a_session_of_one_day() {
    let token = [5u8; 32];
    let outcome = prepare_login(&stored_hash("hunter2"), &login("hunter2", false), &token, &now());
    let session = match outcome.unwrap() {
        LoginOutcome::Granted(session) => session,
        LoginOutcome::Failed => panic!("the password was right"),
    };
    assert_eq!(session.session_id, capability_text(&token));
    assert_eq!(session.record.session_id_sha256sum, digest_of(&token));
    assert_eq!(session.record.expiry_ts, "2023-11-15T22:13:20.250+00:00");
    assert_eq!(session.duration_days, 1);
    assert_eq!(session.cookie_max_age_days, None);
    assert_eq!(session_digest(&session.session_id), session.record.session_id_sha256sum);
}

#[test]
fn long_login_opens_a_session_of_thirty_days() {
    let token = [5u8; 32];
    let outcome = prepare_login(&stored_hash("hunter2"), &login("hunter2", true), &token, &now());
    let session = match outcome.unwrap() {
        LoginOutcome::Granted(session) => session,
        LoginOutcome::Failed => panic!("the password was right"),
    };
    assert_eq!(session.record.expiry_ts, "2023-12-14T22:13:20.250+00:00");
    assert_eq!(session.duration_days, 30);
    assert_eq!(session.cookie_max_age_days, Some(30));
}

#[test]
fn wrong_password_fails_the_login() {
    let outcome = prepare_login(&stored_hash("hunter2"), &login("hunter3", false), &[5u8; 32], &now());
    assert!(matches!(outcome.unwrap(), LoginOutcome::Failed));
    let outcome = prepare_login(&stored_hash("hunter2"), &login("", true), &[5u8; 32], &now());
    assert!(matches!(outcome.unwrap(), LoginOutcome::Failed));
}

#[test]
fn stored_hash_that_does_not_parse_is_a_server_error() {
    let e = prepare_login("not a hash", &login("hunter2", false), &[5u8; 32], &now()).unwrap_err();
    assert_eq!(e.status_code, StatusCode::INTERNAL_SERVER_ERROR);
    assert!(e
        .message
        .starts_with("the admin password hash in config.toml could not be parsed correctly: "));
    assert!(e.message.len() > 71);
    let e = prepare_login("", &login("hunter2", false), &[5u8; 32], &now()).unwrap_err();
    assert_eq!(e.status_code, StatusCode::INTERNAL_SERVER_ERROR);
}

#[test]
fn session_out_of_range_is_a_server_error() {
    let e = prepare_login(
        &stored_hash("hunter2"),
        &login("hunter2", false),
        &[5u8; 32],
        &Timestamp::new(i64::MAX - 5, 0),
    )
    .unwrap_err();
    assert_eq!(e.status_code, StatusCode::INTERNAL_SERVER_ERROR);
    assert_eq!(e.message, "failed to apply duration to current timestamp");
}

#[test]
fn fresh_session_is_found_by_its_cookie() {
    let session = match admin_login(&stored_hash("pw"), &login("pw", false), &now()).unwrap() {
        LoginOutcome::Granted(session) => session,
        LoginOutcome::Failed => panic!("the password was right"),
    };
    assert_eq!(session.session_id.len(), 43);
    assert_eq!(admin_logout(&session.session_id), session.record.session_id_sha256sum);
    assert_eq!(check_session(Some(&session.record), &session.session_id, &now()).ok(), Some(true));
    let much_later = Timestamp::new(1_700_000_000 + 86_401, 0);
    assert_eq!(
        check_session(Some(&session.record), &session.session_id, &much_later).ok(),
        Some(false)
    );
    assert!(matches!(
        admin_login(&stored_hash("pw"), &login("no", false), &now()).unwrap(),
        LoginOutcome::Failed
    ));
}

#[test]
fn page_for_the_holder_of_a_live_session() {
    let token = [5u8; 32];
    let cookie = capability_text(&token);
    let live = AdminSession {
        session_id_sha256sum: digest_of(&token),
        expiry_ts: "2023-11-15T22:13:20+00:00".to_string(),
    };
    assert_eq!(admin_page(Some(&live), &cookie, None, &now()).ok(), Some(AdminView::Dashboard));
    let expired = AdminSession {
        session_id_sha256sum: digest_of(&token),
        expiry_ts: "2023-11-14T22:13:20+00:00".to_string(),
    };
    assert_eq!(
        admin_page(Some(&expired), &cookie, None, &now()).ok(),
        Some(AdminView::LoginForm { failed_login: false })
    );
    assert_eq!(
        admin_page(None, "", Some("login_failed"), &now()).ok(),
        Some(AdminView::LoginForm { failed_login: true })
    );
    assert_eq!(
        admin_page(None, "", Some("other"), &now()).ok(),
        Some(AdminView::LoginForm { failed_login: false })
    );
    let corrupt =
        AdminSession { session_id_sha256sum: digest_of(&token), expiry_ts: "?".to_string() };
    assert_eq!(
        admin_page(Some(&corrupt), &cookie, None, &now()).unwrap_err().status_code,
        StatusCode::INTERNAL_SERVER_ERROR
    );
}

#[test]
fn uploader_for_display() {
    assert_eq!(pretty_uploader("v4_cb007107"), "203.0.113.7");
    assert_eq!(pretty_uploader("v6_20010db80000ff0a"), "2001:0db8:0000:ff0a::/64");
    assert_eq!(pretty_uploader("203.0.113.7"), "(invalid IP)");
    assert_eq!(pretty_uploader(""), "(invalid IP)");
}

#[test]
fn line_of_the_overview() {
    let line = overview_line(&record("h", 1536, "v4_cb007107", "2023-11-21T22:13:20+00:00"), &now());
    assert_eq!(line.efd_sha256sum, "h");
    assert_eq!(line.formatted_filesize, "1.5 KiB");
    assert_eq!(line.upload_ip_pretty, "203.0.113.7");
    assert_eq!(line.upload_ts_pretty, "1h ago");
    assert_eq!(line.upload_ts, "(Tue Nov 14 21:13:20 2023)");
    assert_eq!(line.expiry_ts_pretty, "6d 23h 59m");
    assert_eq!(line.expiry_ts, "(Tue Nov 21 22:13:20 2023)");
    assert_eq!(line.downloads, 5);
}

#[test]
fn line_of_a_record_with_corrupt_fields() {
    let mut broken = record("h", 10, "nobody", "whenever");
    broken.upload_ts = "once".to_string();
    let line = overview_line(&broken, &now());
    assert_eq!(line.upload_ip_pretty, "(invalid IP)");
    assert_eq!(line.upload_ts_pretty, "N/A");
    assert_eq!(line.upload_ts, "(invalid timestamp)");
    assert_eq!(line.expiry_ts_pretty, "N/A");
    assert_eq!(line.expiry_ts, "(invalid timestamp)");
}

#[test]
fn overview_leaves_out_what_has_expired() {
    let rows = vec![
        record("a", 1024, "v4_cb007107", "2023-11-21T22:13:20+00:00"),
        record("b", 2048, "v4_cb007107", "2023-11-01T00:00:00+00:00"),
        record("c", 512, "v4_cb007107", "corrupt"),
    ];
    let o = admin_overview(&rows, 5_368_709_120, &now());
    assert_eq!(o.full_file_count, 2);
    assert_eq!(o.files.len(), 2);
    assert_eq!(o.files[0].efd_sha256sum, "a");
    assert_eq!(o.files[1].efd_sha256sum, "c");
    assert_eq!(o.maximum_quota, "5.0 GiB");
    assert_eq!(o.used_quota, "1.5 KiB");
    let o = admin_overview(&Vec::new(), 0, &now());
    assert_eq!(o.full_file_count, 0);
    assert_eq!(o.maximum_quota, "0 Bytes");
    assert_eq!(o.used_quota, "0 Bytes");
}
