use ferrishare::auth::{check_key, check_session};
use ferrishare::delete::{check_hash_length, KeyCheck};
use ferrishare::digest::{capability_text, content_hash, digest_of};
use ferrishare::{
    authorize, cleanup_file, delete_endpoint, AdminSession, DeleteRequest, Resource, StatusCode,
    Timestamp,
};

const EXPIRY: &str = "2023-11-14T22:13:20+00:00";

fn key() -> [u8; 32] {
    [17u8; 32]
}

fn record() -> Resource {
    Resource {
        efd_sha256sum: content_hash(b"blob"),
        admin_key_sha256sum: digest_of(&key()),
        e_filename: vec![1, 2, 3],
        iv_fd: vec![0; 12],
        iv_fn: vec![0; 12],
        filesize: 4,
        upload_ip: "v4_cb007107".to_string(),
        upload_ts: "2023-11-14T21:13:20+00:00".to_string(),
        expiry_ts: EXPIRY.to_string(),
        downloads: 0,
    }
}

fn token() -> [u8; 32] {
    [99u8; 32]
}

fn session(expiry_ts: &str) -> AdminSession {
    AdminSession { session_id_sha256sum: digest_of(&token()), expiry_ts: expiry_ts.to_string() }
}

fn before() -> Timestamp {
    Timestamp::new(1_699_999_000, 0)
}

fn after() -> Timestamp {
    Timestamp::new(1_700_000_001, 0)
}

fn request(admin: Option<&str>) -> DeleteRequest {
    DeleteRequest { hash: content_hash(b"blob"), admin: admin.map(|s| s.to_string()) }
}

#[test]
fn hash_must_have_43_bytes() {
    assert!(check_hash_length(&content_hash(b"x")).is_ok());
    let e = check_hash_length("short").unwrap_err();
    assert_eq!(e.status_code, StatusCode::BAD_REQUEST);
    assert_eq!(e.message, "invalid hash length");
    assert!(check_hash_length("").is_err());
    assert!(check_hash_length(&"a".repeat(44)).is_err());
    // 43 characters, but more bytes
    assert!(check_hash_length(&"\u{e9}".repeat(43)).is_err());
}

#[test]
fn capability_authorizes() {
    let cap = capability_text(&key());
    assert_eq!(authorize(Some(&record()), Some(&cap), None, "", &before()).ok(), Some(true));
    assert!(check_key(&record(), Some(&cap)));
}

#[test]
fn wrong_capability_does_not_authorize() {
    assert_eq!(authorize(Some(&record()), Some("wrong"), None, "", &before()).ok(), Some(false));
    let other = capability_text(&[18u8; 32]);
    assert_eq!(authorize(Some(&record()), Some(&other), None, "", &before()).ok(), Some(false));
    assert_eq!(authorize(Some(&record()), None, None, "", &before()).ok(), Some(false));
    assert!(!check_key(&record(), None));
}

#[test]
fn live_session_authorizes() {
    let cookie = capability_text(&token());
    let s = session("2023-12-14T22:13:20+00:00");
    assert_eq!(authorize(Some(&record()), None, Some(&s), &cookie, &before()).ok(), Some(true));
    assert_eq!(
        authorize(Some(&record()), Some("wrong"), Some(&s), &cookie, &before()).ok(),
        Some(true)
    );
}

#[test]
fn expired_session_does_not_authorize() {
    let cookie = capability_text(&token());
    let s = session("2023-11-01T00:00:00+00:00");
    assert_eq!(authorize(Some(&record()), None, Some(&s), &cookie, &before()).ok(), Some(false));
    assert_eq!(check_session(Some(&s), &cookie, &before()).ok(), Some(false));
}

#[test]
fn session_of_another_cookie_does_not_authorize() {
    let cookie = capability_text(&[1u8; 32]);
    let s = session("2023-12-14T22:13:20+00:00");
    assert_eq!(authorize(Some(&record()), None, Some(&s), &cookie, &before()).ok(), Some(false));
    assert_eq!(authorize(Some(&record()), None, Some(&s), "", &before()).ok(), Some(false));
}

#[test]
fn session_with_a_corrupt_expiry_is_a_server_error() {
    let cookie = capability_text(&token());
    let s = session("never");
    let e = authorize(Some(&record()), None, Some(&s), &cookie, &before()).unwrap_err();
    assert_eq!(e.status_code, StatusCode::INTERNAL_SERVER_ERROR);
    assert_eq!(e.message, Timestamp::parse("never").unwrap_err());
}

#[test]
fn expired_record_authorizes_as_an_absent_one() {
    let cap = capability_text(&key());
    let expired = authorize(Some(&record()), Some(&cap), None, "", &after()).unwrap_err();
    let absent = authorize(None, Some(&cap), None, "", &after()).unwrap_err();
    assert_eq!(expired.status_code, StatusCode::NOT_FOUND);
    assert_eq!(expired.status_code, absent.status_code);
    assert_eq!(expired.message, absent.message);
    assert_eq!(expired.message, "file not found or expired");
}

#[test]
fn deletion_with_the_capability() {
    let cap = capability_text(&key());
    let pending = delete_endpoint(request(Some(&cap)), "").unwrap();
    assert_eq!(pending.lookup_hash(), content_hash(b"blob"));
    let removal = match pending.on_resource(Some(&record()), &before()).unwrap() {
        KeyCheck::Authorized(removal) => removal,
        KeyCheck::NeedsSession(_) => panic!("the capability should have sufficed"),
    };
    assert_eq!(removal.row_hash(), content_hash(b"blob"));
    let blob = removal.on_row_removed(Ok(())).unwrap();
    assert_eq!(blob.blob_name(), content_hash(b"blob"));
    assert_eq!(blob.on_blob_removed(Ok(())).unwrap(), content_hash(b"blob"));
}

#[test]
fn deletion_with_a_session() {
    let cookie = capability_text(&token());
    let pending = delete_endpoint(request(None), &cookie).unwrap();
    let check = match pending.on_resource(Some(&record()), &before()).unwrap() {
        KeyCheck::Authorized(_) => panic!("no capability was presented"),
        KeyCheck::NeedsSession(check) => check,
    };
    assert_eq!(check.lookup_digest(), digest_of(&token()));
    let s = session("2023-12-14T22:13:20+00:00");
    let removal = check.on_session(Some(&s), &before()).unwrap();
    assert_eq!(removal.row_hash(), content_hash(b"blob"));
}

#[test]
fn deletion_without_authorization_is_refused() {
    let pending = delete_endpoint(request(Some("wrong")), "").unwrap();
    let check = match pending.on_resource(Some(&record()), &before()).unwrap() {
        KeyCheck::Authorized(_) => panic!("the capability was wrong"),
        KeyCheck::NeedsSession(check) => check,
    };
    let e = check.on_session(None, &before()).unwrap_err();
    assert_eq!(e.status_code, StatusCode::UNAUTHORIZED);
    assert_eq!(e.message, "unauthorized");
}

#[test]
fn deletion_of_what_is_not_there_is_not_found() {
    let cap = capability_text(&key());
    let e = delete_endpoint(request(Some(&cap)), "").unwrap().on_resource(None, &before()).unwrap_err();
    assert_eq!(e.status_code, StatusCode::NOT_FOUND);
    assert_eq!(e.message, "file not found or expired");
    let e = delete_endpoint(request(Some(&cap)), "")
        .unwrap()
        .on_resource(Some(&record()), &after())
        .unwrap_err();
    assert_eq!(e.status_code, StatusCode::NOT_FOUND);
    assert_eq!(e.message, "file not found or expired");
}

#[test]
fn deletion_with_a_hash_of_the_wrong_length_is_refused() {
    let e = delete_endpoint(DeleteRequest { hash: "abc".to_string(), admin: None }, "").unwrap_err();
    assert_eq!(e.status_code, StatusCode::BAD_REQUEST);
    assert_eq!(e.message, "invalid hash length");
}

#[test]
fn record_that_cannot_be_deleted_leaves_the_blob() {
    let removal = cleanup_file("some-hash");
    let e = removal.on_row_removed(Err("database is locked".to_string())).unwrap_err();
    assert_eq!(e.status_code, StatusCode::INTERNAL_SERVER_ERROR);
    assert_eq!(e.message, "database is locked");
}

#[test]
fn blob_that_cannot_be_deleted_is_reported() {
    let blob = cleanup_file("some-hash").on_row_removed(Ok(())).unwrap();
    let failure = blob.on_blob_removed(Err("permission denied".to_string())).unwrap_err();
    assert_eq!(failure.error.status_code, StatusCode::INTERNAL_SERVER_ERROR);
    assert_eq!(failure.error.message, "permission denied");
    assert_eq!(failure.orphaned_blob, Some("some-hash".to_string()));
}
